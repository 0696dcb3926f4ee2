use std::sync::Arc;
use vstd::prelude::*;

verus! {

/// The lines of one source file, shared between threads once read.
pub struct SourceFile {
    pub name: String,
    pub lines: Arc<Vec<String>>,
}

/// Why a line of a source file cannot be had.
#[derive(Clone, Copy, PartialEq, Eq, Structural, Debug)]
pub enum LineError {
    /// Line numbers start at 1.
    ZeroLine,
    /// The file is not in this thread's view of the sources.
    NotLoaded,
    /// The file has fewer lines than the number asked for.
    OutOfRange,
}

/// What a thread's tracing state holds.
pub ghost struct StateView {
    pub depth: nat,
    pub prev_depth: nat,
    pub prev_line: Option<Seq<char>>,
    pub files: Seq<(Seq<char>, Seq<String>)>,
}

/// Lines of the first file named `name`, if any.
pub open spec fn lookup(files: Seq<(Seq<char>, Seq<String>)>, name: Seq<char>) -> Option<Seq<String>>
    decreases files.len(),
{
    if files.len() == 0 {
        None
    } else if files[0].0 == name {
        Some(files[0].1)
    } else {
        lookup(files.drop_first(), name)
    }
}

/// The files of a thread after it is handed `lines` for file `name`: a
/// file it holds already is kept as it is.
pub open spec fn adopted(files: Seq<(Seq<char>, Seq<String>)>, name: Seq<char>, lines: Seq<String>) -> Seq<(Seq<char>, Seq<String>)> {
    if lookup(files, name) is Some {
        files
    } else {
        files.push((name, lines))
    }
}

proof fn lemma_lookup_push(files: Seq<(Seq<char>, Seq<String>)>, entry: (Seq<char>, Seq<String>), name: Seq<char>)
    ensures
        lookup(files.push(entry), name) == if lookup(files, name) is Some {
            lookup(files, name)
        } else if entry.0 == name {
            Some(entry.1)
        } else {
            None
        },
    decreases files.len(),
{
    if files.len() > 0 {
        assert(files.push(entry)[0] == files[0]);
        assert(files.push(entry).drop_first() =~= files.drop_first().push(entry));
        lemma_lookup_push(files.drop_first(), entry, name);
    } else {
        assert(files.push(entry).drop_first() =~= files);
    }
}

/// Once a thread holds a file's lines, handing it lines for any file keeps
/// them: later lookups of that file give the same lines. A file it did not
/// hold is then held with the lines it was handed.
pub proof fn lemma_adopt_keeps_lines(
    files: Seq<(Seq<char>, Seq<String>)>,
    name: Seq<char>,
    lines: Seq<String>,
    other: Seq<char>,
)
    ensures
        lookup(files, other) is Some ==> lookup(adopted(files, name, lines), other) == lookup(files, other),
        lookup(files, name) is None ==> lookup(adopted(files, name, lines), name) == Some(lines),
{
    lemma_lookup_push(files, (name, lines), other);
    lemma_lookup_push(files, (name, lines), name);
}

/// The text of line `line_nr` (counted from 1) of a file's lines.
pub open spec fn nth_line(lines: Seq<String>, line_nr: nat) -> Seq<char> {
    lines[line_nr - 1]@
}

/// Whether `line_nr` names a line of file `name` in a thread's view.
pub open spec fn line_valid(files: Seq<(Seq<char>, Seq<String>)>, name: Seq<char>, line_nr: nat) -> bool {
    &&& lookup(files, name) is Some
    &&& 1 <= line_nr <= lookup(files, name).unwrap().len()
}

/// The result that a line lookup owes.
pub open spec fn line_result(files: Seq<(Seq<char>, Seq<String>)>, name: Seq<char>, line_nr: nat) -> Result<Seq<char>, LineError> {
    if line_nr == 0 {
        Err(LineError::ZeroLine)
    } else if lookup(files, name) is None {
        Err(LineError::NotLoaded)
    } else if line_nr > lookup(files, name).unwrap().len() {
        Err(LineError::OutOfRange)
    } else {
        Ok(nth_line(lookup(files, name).unwrap(), line_nr))
    }
}

/// Per-thread tracing state: nesting depth, the depth and specifier of the
/// previous trace line, and the source files this thread has used.
pub struct ThreadState {
    indent: u32,
    prev_indent: u32,
    prev_str: Option<String>,
    sources: Vec<SourceFile>,
}

pub open spec fn file_view(f: SourceFile) -> (Seq<char>, Seq<String>) {
    (f.name@, f.lines@)
}

impl View for ThreadState {
    type V = StateView;

    closed spec fn view(&self) -> StateView {
        StateView {
            depth: self.indent as nat,
            prev_depth: self.prev_indent as nat,
            prev_line: match self.prev_str {
                Some(s) => Some(s@),
                None => None,
            },
            files: self.sources@.map_values(|f: SourceFile| file_view(f)),
        }
    }
}

impl ThreadState {
    /// Largest depth that the state can hold.
    pub open spec fn max_depth() -> nat {
        u32::MAX as nat
    }

    /// A thread's state before its first trace line.
    pub fn new() -> (r: Self)
        ensures
            r@ == (StateView { depth: 0, prev_depth: 0, prev_line: None, files: Seq::empty() }),
    {
        let r = ThreadState { indent: 0, prev_indent: 0, prev_str: None, sources: Vec::new() };
        assert(r@.files =~= Seq::empty());
        r
    }

    /// Current nesting depth.
    pub fn depth(&self) -> (r: u32)
        ensures
            r as nat == self@.depth,
    {
        self.indent
    }

    /// Depth at which the previous trace line was rendered.
    pub fn prev_depth(&self) -> (r: u32)
        ensures
            r as nat == self@.prev_depth,
    {
        self.prev_indent
    }

    /// Opens one level of nesting and returns the depth before it.
    pub fn enter(&mut self) -> (r: u32)
        requires
            old(self)@.depth < Self::max_depth(),
        ensures
            r as nat == old(self)@.depth,
            final(self)@ == (StateView { depth: old(self)@.depth + 1, ..old(self)@ }),
    {
        let r = self.indent;
        self.indent = self.indent + 1;
        r
    }

    /// Closes one level of nesting and returns the depth after it.
    pub fn leave(&mut self) -> (r: u32)
        requires
            old(self)@.depth > 0,
        ensures
            r as nat == final(self)@.depth,
            final(self)@ == (StateView { depth: (old(self)@.depth - 1) as nat, ..old(self)@ }),
    {
        self.indent = self.indent - 1;
        self.indent
    }

    /// Records a rendered line: its depth is the current depth, its
    /// specifier is `specifier`. Returns the previous depth and specifier.
    pub fn record(&mut self, specifier: String) -> (r: (u32, Option<String>))
        ensures
            r.0 as nat == old(self)@.prev_depth,
            r.1 matches Some(s) ==> old(self)@.prev_line == Some(s@),
            r.1 is None ==> old(self)@.prev_line is None,
            final(self)@ == (StateView {
                prev_depth: old(self)@.depth,
                prev_line: Some(specifier@),
                ..old(self)@
            }),
    {
        let prev_depth = self.prev_indent;
        self.prev_indent = self.indent;
        let prev = self.prev_str.take();
        self.prev_str = Some(specifier);
        (prev_depth, prev)
    }

    fn find(&self, name: &str) -> (r: Option<usize>)
        ensures
            r is None ==> lookup(self@.files, name@) is None,
            r matches Some(i) ==> i < self@.files.len() && lookup(self@.files, name@) == Some(self@.files[i as int].1),
    {
        let key = String::from_str(name);
        let mut i: usize = 0;
        assert(self@.files.subrange(0, self@.files.len() as int) =~= self@.files);
        while i < self.sources.len()
            invariant
                i <= self.sources@.len(),
                key@ == name@,
                self@.files.len() == self.sources@.len(),
                lookup(self@.files, name@) == lookup(self@.files.subrange(i as int, self@.files.len() as int), name@),
            decreases self.sources@.len() - i,
        {
            let ghost rest = self@.files.subrange(i as int, self@.files.len() as int);
            assert(rest.drop_first() =~= self@.files.subrange(i + 1, self@.files.len() as int));
            assert(rest[0] == self@.files[i as int]);
            assert(self@.files[i as int] == file_view(self.sources@[i as int]));
            if self.sources[i].name == key {
                return Some(i);
            }
            i = i + 1;
        }
        None
    }

    /// Whether this thread already holds the lines of file `name`.
    pub fn is_loaded(&self, name: &str) -> (r: bool)
        ensures
            r == (lookup(self@.files, name@) is Some),
    {
        self.find(name).is_some()
    }

    /// Keeps `lines` as this thread's copy of file `name`, unless the
    /// thread holds that file already.
    pub fn adopt(&mut self, name: &str, lines: Arc<Vec<String>>)
        ensures
            final(self)@.depth == old(self)@.depth,
            final(self)@.prev_depth == old(self)@.prev_depth,
            final(self)@.prev_line == old(self)@.prev_line,
            final(self)@.files == adopted(old(self)@.files, name@, lines@),
    {
        if self.find(name).is_none() {
            let ghost before = self.sources@;
            self.sources.push(SourceFile { name: String::from_str(name), lines });
            assert(self@.files =~= old(self)@.files.push((name@, lines@)));
        }
    }

    /// Line `line_nr` (counted from 1) of file `name`, which this thread
    /// holds.
    pub fn source_line(&self, name: &str, line_nr: u32) -> (r: String)
        requires
            line_valid(self@.files, name@, line_nr as nat),
        ensures
            r@ == nth_line(lookup(self@.files, name@).unwrap(), line_nr as nat),
    {
        let i = self.find(name).unwrap();
        let lines: &Vec<String> = &self.sources[i].lines;
        lines[line_nr as usize - 1].clone()
    }

    /// Line `line_nr` (counted from 1) of file `name`.
    pub fn get_line(&self, name: &str, line_nr: u32) -> (r: Result<String, LineError>)
        ensures
            match r {
                Ok(s) => line_result(self@.files, name@, line_nr as nat) == Ok::<Seq<char>, LineError>(s@),
                Err(e) => line_result(self@.files, name@, line_nr as nat) == Err::<Seq<char>, LineError>(e),
            },
    {
        if line_nr == 0 {
            return Err(LineError::ZeroLine);
        }
        match self.find(name) {
            None => Err(LineError::NotLoaded),
            Some(i) => {
                let lines: &Vec<String> = &self.sources[i].lines;
                if line_nr as usize > lines.len() {
                    Err(LineError::OutOfRange)
                } else {
                    Ok(lines[line_nr as usize - 1].clone())
                }
            },
        }
    }
}

} // verus!
