use vstd::prelude::*;
use crate::event::{Class, Pos, owns_depth, specifier, specifier_text};
use crate::highlight::{render_line, rendered_line};
use crate::state::{StateView, ThreadState, line_valid, lookup, nth_line};

verus! {

/// What a trace handle holds.
pub ghost struct WrapperView {
    pub class: Class,
    pub name: Seq<char>,
    pub modpath: Seq<char>,
    pub file: Seq<char>,
    pub line_nr: nat,
}

/// One traced region. A function or block handle renders its enter line
/// when made and its leave line when released; a statement handle renders
/// its one line when made.
pub struct Wrapper {
    class: Class,
    name: &'static str,
    modpath: &'static str,
    file: &'static str,
    line_nr: u32,
}

impl View for Wrapper {
    type V = WrapperView;

    closed spec fn view(&self) -> WrapperView {
        WrapperView {
            class: self.class,
            name: self.name@,
            modpath: self.modpath@,
            file: self.file@,
            line_nr: self.line_nr as nat,
        }
    }
}

/// The position of the line that a handle renders when it is made.
pub open spec fn opening_pos(class: Class) -> Pos {
    if owns_depth(class) {
        Pos::Enter
    } else {
        Pos::At
    }
}

/// The trace line that `w` renders at `pos` in a thread whose state is `s`,
/// at depth `depth`.
pub open spec fn line_at(s: StateView, w: WrapperView, pos: Pos, depth: nat) -> Seq<char> {
    rendered_line(
        s.prev_depth,
        depth,
        s.prev_line,
        specifier(w.class, pos, w.name, w.modpath, w.line_nr),
        nth_line(lookup(s.files, w.file).unwrap(), w.line_nr),
    )
}

/// Whether the source line of `w` is in the thread's view of the sources.
pub open spec fn source_ready(s: StateView, w: WrapperView) -> bool {
    line_valid(s.files, w.file, w.line_nr)
}

/// The state after `w` has made its opening line in state `s`.
pub open spec fn state_after_open(s: StateView, w: WrapperView) -> StateView {
    StateView {
        depth: if owns_depth(w.class) { s.depth + 1 } else { s.depth },
        prev_depth: s.depth,
        prev_line: Some(specifier(w.class, opening_pos(w.class), w.name, w.modpath, w.line_nr)),
        files: s.files,
    }
}

/// The state after `w` has been released in state `s`.
pub open spec fn state_after_release(s: StateView, w: WrapperView) -> StateView {
    if owns_depth(w.class) {
        StateView {
            depth: (s.depth - 1) as nat,
            prev_depth: (s.depth - 1) as nat,
            prev_line: Some(specifier(w.class, Pos::Leave, w.name, w.modpath, w.line_nr)),
            files: s.files,
        }
    } else {
        s
    }
}

/// Depth printed on the line that `w` renders when released in state `s`.
pub open spec fn release_depth(s: StateView) -> nat {
    (s.depth - 1) as nat
}

/// Bracket symmetry: a function or block handle opened in state `s` and
/// released in a state `t` at the depth its opening left (which is what
/// handles opened and released inside it leave) prints its leave line at
/// the depth its enter line was printed at, and leaves the depth it found.
pub proof fn lemma_bracket_symmetry(s: StateView, w: WrapperView, t: StateView)
    requires
        owns_depth(w.class),
        t.depth == state_after_open(s, w).depth,
    ensures
        release_depth(t) == s.depth,
        state_after_release(t, w).depth == s.depth,
{
}

/// Opening and at once releasing a handle leaves the depth and the
/// thread's files as they were.
pub proof fn lemma_open_release_restores(s: StateView, w: WrapperView)
    ensures
        state_after_release(state_after_open(s, w), w).depth == s.depth,
        state_after_release(state_after_open(s, w), w).files == s.files,
{
}

impl Wrapper {
    /// The specifier of this handle's line at `pos`.
    pub fn specifier(&self, pos: Pos) -> (r: String)
        ensures
            r@ == specifier(self@.class, pos, self@.name, self@.modpath, self@.line_nr),
    {
        specifier_text(self.class, pos, self.name, self.modpath, self.line_nr)
    }

    fn print(&self, pos: Pos, state: &mut ThreadState) -> (out: String)
        requires
            source_ready(old(state)@, self@),
        ensures
            out@ == line_at(old(state)@, self@, pos, old(state)@.depth),
            final(state)@ == (StateView {
                prev_depth: old(state)@.depth,
                prev_line: Some(specifier(self@.class, pos, self@.name, self@.modpath, self@.line_nr)),
                ..old(state)@
            }),
    {
        let spec = self.specifier(pos);
        let source = state.source_line(self.file, self.line_nr);
        let depth = state.depth();
        let (prev_depth, prev) = state.record(spec.clone());
        render_line(prev_depth, depth, &prev, spec.as_str(), source.as_str())
    }

    fn print_enter(&self, state: &mut ThreadState) -> (out: String)
        requires
            source_ready(old(state)@, self@),
        ensures
            out@ == line_at(old(state)@, self@, Pos::Enter, old(state)@.depth),
            final(state)@ == (StateView {
                prev_depth: old(state)@.depth,
                prev_line: Some(specifier(self@.class, Pos::Enter, self@.name, self@.modpath, self@.line_nr)),
                ..old(state)@
            }),
    {
        self.print(Pos::Enter, state)
    }

    fn print_leave(&self, state: &mut ThreadState) -> (out: String)
        requires
            source_ready(old(state)@, self@),
        ensures
            out@ == line_at(old(state)@, self@, Pos::Leave, old(state)@.depth),
            final(state)@ == (StateView {
                prev_depth: old(state)@.depth,
                prev_line: Some(specifier(self@.class, Pos::Leave, self@.name, self@.modpath, self@.line_nr)),
                ..old(state)@
            }),
    {
        self.print(Pos::Leave, state)
    }

    /// Opens a traced region: renders its enter line (a statement's one
    /// line) and, for a function or block, opens one level of nesting.
    /// Returns the handle and the rendered line.
    pub fn new(
        class: Class,
        name: &'static str,
        modpath: &'static str,
        file: &'static str,
        line_nr: u32,
        state: &mut ThreadState,
    ) -> (r: (Wrapper, String))
        requires
            line_valid(old(state)@.files, file@, line_nr as nat),
            owns_depth(class) ==> old(state)@.depth < ThreadState::max_depth(),
        ensures
            r.0@ == (WrapperView { class, name: name@, modpath: modpath@, file: file@, line_nr: line_nr as nat }),
            r.1@ == line_at(old(state)@, r.0@, opening_pos(class), old(state)@.depth),
            final(state)@ == state_after_open(old(state)@, r.0@),
    {
        let s = Wrapper { class, name, modpath, file, line_nr };
        let out = match class {
            Class::Stmt => s.print(Pos::At, state),
            _ => {
                let out = s.print_enter(state);
                let _ = state.enter();
                out
            },
        };
        (s, out)
    }

    /// Closes the region of a function or block handle: closes its level
    /// of nesting, then renders its leave line at the depth it entered at.
    /// A statement handle has nothing left to do.
    pub fn release(&self, state: &mut ThreadState) -> (r: Option<String>)
        requires
            owns_depth(self@.class) ==> old(state)@.depth > 0,
            owns_depth(self@.class) ==> source_ready(old(state)@, self@),
        ensures
            final(state)@ == state_after_release(old(state)@, self@),
            owns_depth(self@.class) ==> r is Some && r.unwrap()@ == line_at(
                StateView { depth: release_depth(old(state)@), ..old(state)@ },
                self@,
                Pos::Leave,
                release_depth(old(state)@),
            ),
            !owns_depth(self@.class) ==> r is None,
    {
        match self.class {
            Class::Stmt => None,
            _ => {
                let _ = state.leave();
                Some(self.print_leave(state))
            },
        }
    }
}

/// Traces one statement: renders its line, with no change of depth.
pub fn statement(name: &'static str, modpath: &'static str, file: &'static str, line_nr: u32, state: &mut ThreadState) -> (out: String)
    requires
        line_valid(old(state)@.files, file@, line_nr as nat),
    ensures
        final(state)@.depth == old(state)@.depth,
        final(state)@ == state_after_open(
            old(state)@,
            WrapperView { class: Class::Stmt, name: name@, modpath: modpath@, file: file@, line_nr: line_nr as nat },
        ),
        out@ == line_at(
            old(state)@,
            WrapperView { class: Class::Stmt, name: name@, modpath: modpath@, file: file@, line_nr: line_nr as nat },
            Pos::At,
            old(state)@.depth,
        ),
{
    let (_w, out) = Wrapper::new(Class::Stmt, name, modpath, file, line_nr, state);
    out
}

} // verus!
