use vstd::prelude::*;

verus! {

/// The kind of traced region.
#[derive(Clone, Copy, PartialEq, Eq, Structural, Debug)]
pub enum Class {
    Fn,
    Stmt,
    Block,
}

/// Where in a region a trace line is rendered.
#[derive(Clone, Copy, PartialEq, Eq, Structural, Debug)]
pub enum Pos {
    Enter,
    At,
    Leave,
}

/// Whether a region of this kind owns one level of nesting depth.
pub open spec fn owns_depth(class: Class) -> bool {
    !(class is Stmt)
}

pub open spec fn digit_char(d: nat) -> char {
    seq!['0', '1', '2', '3', '4', '5', '6', '7', '8', '9'][d as int]
}

/// Decimal digits of `n`, most significant first, without leading zeros.
pub open spec fn decimal(n: nat) -> Seq<char>
    decreases n,
{
    if n < 10 {
        seq![digit_char(n)]
    } else {
        decimal(n / 10).push(digit_char(n % 10))
    }
}

/// `n` right-aligned in a field two characters wide.
pub open spec fn depth_label_spec(n: nat) -> Seq<char> {
    if n < 10 {
        seq![' '] + decimal(n)
    } else {
        decimal(n)
    }
}

pub open spec fn position_marker(pos: Pos) -> Seq<char> {
    match pos {
        Pos::Enter => seq!['-', '>'],
        Pos::At => seq!['@', '@'],
        Pos::Leave => seq!['<', '-'],
    }
}

/// Call or return punctuation that a function's name carries.
pub open spec fn call_marks(class: Class, pos: Pos) -> Seq<char> {
    match class {
        Class::Fn => match pos {
            Pos::Enter => seq!['(', ')'],
            Pos::At => Seq::empty(),
            Pos::Leave => seq!['<', '-'],
        },
        _ => Seq::empty(),
    }
}

/// The specifier of a trace line:
/// `modpath:name:<marks>:(<marker><line>)`.
pub open spec fn specifier(class: Class, pos: Pos, name: Seq<char>, modpath: Seq<char>, line_nr: nat) -> Seq<char> {
    modpath + seq![':'] + name + seq![':'] + call_marks(class, pos) + seq![':', '(']
        + position_marker(pos) + decimal(line_nr) + seq![')']
}

fn digit_string(d: u32) -> (r: &'static str)
    requires
        d < 10,
    ensures
        r@ == seq![digit_char(d as nat)],
{
    proof {
        reveal_strlit("0123456789");
    }
    let r = "0123456789".substring_char(d as usize, d as usize + 1);
    assert(r@ =~= seq![digit_char(d as nat)]);
    r
}

/// The decimal digits of `n`.
pub fn decimal_string(n: u32) -> (r: String)
    ensures
        r@ == decimal(n as nat),
    decreases n,
{
    if n < 10 {
        String::from_str(digit_string(n))
    } else {
        let mut s = decimal_string(n / 10);
        s.append(digit_string(n % 10));
        s
    }
}

/// A depth as the trace prints it: right-aligned in two characters.
pub fn depth_label(n: u32) -> (r: String)
    ensures
        r@ == depth_label_spec(n as nat),
{
    let digits = decimal_string(n);
    if n < 10 {
        proof {
            reveal_strlit(" ");
        }
        let mut s = String::from_str(" ");
        s.append(digits.as_str());
        s
    } else {
        digits
    }
}

fn marker_text(pos: Pos) -> (r: &'static str)
    ensures
        r@ == position_marker(pos),
{
    match pos {
        Pos::Enter => {
            proof {
                reveal_strlit("->");
            }
            "->"
        },
        Pos::At => {
            proof {
                reveal_strlit("@@");
            }
            "@@"
        },
        Pos::Leave => {
            proof {
                reveal_strlit("<-");
            }
            "<-"
        },
    }
}

fn call_marks_text(class: Class, pos: Pos) -> (r: &'static str)
    ensures
        r@ == call_marks(class, pos),
{
    proof {
        reveal_strlit("");
        reveal_strlit("()");
        reveal_strlit("<-");
    }
    match class {
        Class::Fn => match pos {
            Pos::Enter => "()",
            Pos::At => "",
            Pos::Leave => "<-",
        },
        _ => "",
    }
}

/// Builds the specifier of a trace line for a region.
pub fn specifier_text(class: Class, pos: Pos, name: &str, modpath: &str, line_nr: u32) -> (r: String)
    ensures
        r@ == specifier(class, pos, name@, modpath@, line_nr as nat),
{
    proof {
        reveal_strlit(":");
        reveal_strlit(":(");
        reveal_strlit(")");
    }
    let mut s = String::from_str(modpath);
    s.append(":");
    s.append(name);
    s.append(":");
    s.append(call_marks_text(class, pos));
    s.append(":(");
    s.append(marker_text(pos));
    let digits = decimal_string(line_nr);
    s.append(digits.as_str());
    s.append(")");
    assert(s@ =~= specifier(class, pos, name@, modpath@, line_nr as nat));
    s
}

} // verus!
