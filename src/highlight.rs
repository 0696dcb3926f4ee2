use vstd::prelude::*;
use crate::event::{depth_label, depth_label_spec};

verus! {

/// How a span of the new specifier relates to the previous one.
#[derive(Clone, Copy, PartialEq, Eq, Structural, Debug)]
pub enum SpanKind {
    Same,
    Removed,
    Added,
}

/// One span of a character-level difference between two strings.
pub struct Span {
    pub kind: SpanKind,
    pub text: String,
}

/// The colour and weight a piece of text is printed in.
#[derive(Clone, Copy, PartialEq, Eq, Structural, Debug)]
pub enum Ink {
    Rgb(u8, u8, u8),
    BoldWhite,
}

/// A piece of text with its ink.
pub struct Segment {
    pub ink: Ink,
    pub text: String,
}

/// How a trace line's depth compares with the previous line's.
#[derive(Clone, Copy, PartialEq, Eq, Structural, Debug)]
pub enum Trend {
    Level,
    Deeper,
    Shallower,
}

pub open spec fn spans_view(spans: Seq<Span>) -> Seq<(SpanKind, Seq<char>)> {
    spans.map_values(|s: Span| (s.kind, s.text@))
}

pub open spec fn segments_view(segs: Seq<Segment>) -> Seq<(Ink, Seq<char>)> {
    segs.map_values(|s: Segment| (s.ink, s.text@))
}

/// The spans that a character-level diff of `old` against `new` produces.
pub uninterp spec fn char_diff(old: Seq<char>, new: Seq<char>) -> Seq<(SpanKind, Seq<char>)>;

/// The text, with its escape sequences, that prints `segs` in their inks.
pub uninterp spec fn ansi_painted(segs: Seq<(Ink, Seq<char>)>) -> Seq<char>;

/// The text on the side of the previous string: kept and removed spans.
pub open spec fn old_side(spans: Seq<(SpanKind, Seq<char>)>) -> Seq<char>
    decreases spans.len(),
{
    if spans.len() == 0 {
        Seq::empty()
    } else {
        old_side(spans.drop_last()) + if spans.last().0 is Added {
            Seq::empty()
        } else {
            spans.last().1
        }
    }
}

/// The text on the side of the new string: kept and added spans.
pub open spec fn new_side(spans: Seq<(SpanKind, Seq<char>)>) -> Seq<char>
    decreases spans.len(),
{
    if spans.len() == 0 {
        Seq::empty()
    } else {
        new_side(spans.drop_last()) + if spans.last().0 is Removed {
            Seq::empty()
        } else {
            spans.last().1
        }
    }
}

pub open spec fn all_same(spans: Seq<(SpanKind, Seq<char>)>) -> bool {
    forall|i: int| 0 <= i < spans.len() ==> (#[trigger] spans[i]).0 is Same
}

/// Relies on difference::Changeset::new with an empty split: a
/// character-level diff whose kept and removed spans spell the old string,
/// whose kept and added spans spell the new one, and which keeps all of
/// two equal strings.
#[verifier::external_body]
fn diff_chars(old: &str, new: &str) -> (r: Vec<Span>)
    ensures
        spans_view(r@) == char_diff(old@, new@),
        old_side(spans_view(r@)) == old@,
        new_side(spans_view(r@)) == new@,
        old@ == new@ ==> all_same(spans_view(r@)),
{
    difference::Changeset::new(old, new, "").diffs.into_iter().map(|d| match d {
        difference::Difference::Same(text) => Span { kind: SpanKind::Same, text },
        difference::Difference::Rem(text) => Span { kind: SpanKind::Removed, text },
        difference::Difference::Add(text) => Span { kind: SpanKind::Added, text },
    }).collect()
}

/// Relies on ansi_term::ANSIStrings: the segments painted one after the
/// other in their styles; no segments give no text.
#[verifier::external_body]
fn paint_segments(segs: &Vec<Segment>) -> (r: String)
    ensures
        r@ == ansi_painted(segments_view(segs@)),
        segs@.len() == 0 ==> r@.len() == 0,
{
    let painted: Vec<ansi_term::ANSIString<'_>> = segs.iter().map(|s| match s.ink {
        Ink::Rgb(r, g, b) => ansi_term::Colour::RGB(r, g, b).paint(s.text.as_str()),
        Ink::BoldWhite => ansi_term::Colour::White.bold().paint(s.text.as_str()),
    }).collect();
    format!("{}", ansi_term::ANSIStrings(&painted))
}

/// Ink of text that is unchanged and still aligned with the previous line.
pub open spec fn muted() -> Ink {
    Ink::Rgb(120, 120, 120)
}

/// Ink of text that changed, or that follows a removal.
pub open spec fn emphasized() -> Ink {
    Ink::BoldWhite
}

/// Whether any of `spans` is a removal.
pub open spec fn removal_seen(spans: Seq<(SpanKind, Seq<char>)>) -> bool
    decreases spans.len(),
{
    if spans.len() == 0 {
        false
    } else {
        removal_seen(spans.drop_last()) || spans.last().0 is Removed
    }
}

/// The printed segments of a diff: kept spans are muted until a removal has
/// been seen and emphasized after it, added spans are emphasized, removed
/// spans are not printed.
pub open spec fn highlighted(spans: Seq<(SpanKind, Seq<char>)>) -> Seq<(Ink, Seq<char>)>
    decreases spans.len(),
{
    if spans.len() == 0 {
        Seq::empty()
    } else {
        let before = spans.drop_last();
        let last = spans.last();
        match last.0 {
            SpanKind::Same => highlighted(before).push(
                (if removal_seen(before) { emphasized() } else { muted() }, last.1),
            ),
            SpanKind::Removed => highlighted(before),
            SpanKind::Added => highlighted(before).push((emphasized(), last.1)),
        }
    }
}

/// Turns the spans of a diff into the segments that print them.
pub fn highlight(spans: &Vec<Span>) -> (r: Vec<Segment>)
    ensures
        segments_view(r@) == highlighted(spans_view(spans@)),
{
    let mut out: Vec<Segment> = Vec::new();
    let mut removed = false;
    let mut i: usize = 0;
    while i < spans.len()
        invariant
            i <= spans@.len(),
            segments_view(out@) == highlighted(spans_view(spans@).subrange(0, i as int)),
            removed == removal_seen(spans_view(spans@).subrange(0, i as int)),
        decreases spans@.len() - i,
    {
        let ghost all = spans_view(spans@);
        let ghost next = all.subrange(0, i + 1);
        assert(next.drop_last() =~= all.subrange(0, i as int));
        assert(next.last() == (spans@[i as int].kind, spans@[i as int].text@));
        let span = &spans[i];
        match span.kind {
            SpanKind::Same => {
                let ink = if removed { Ink::BoldWhite } else { Ink::Rgb(120, 120, 120) };
                out.push(Segment { ink, text: span.text.clone() });
            },
            SpanKind::Removed => {
                removed = true;
            },
            SpanKind::Added => {
                out.push(Segment { ink: Ink::BoldWhite, text: span.text.clone() });
            },
        }
        assert(segments_view(out@) =~= highlighted(next));
        i = i + 1;
    }
    assert(spans_view(spans@).subrange(0, spans@.len() as int) =~= spans_view(spans@));
    out
}

/// The segments that print `next` against the previous specifier `prev`.
pub fn highlight_specifiers(prev: &str, next: &str) -> (r: Vec<Segment>)
    ensures
        segments_view(r@) == highlighted(char_diff(prev@, next@)),
{
    let spans = diff_chars(prev, next);
    highlight(&spans)
}

pub open spec fn trend_of(prev: nat, cur: nat) -> Trend {
    if prev == cur {
        Trend::Level
    } else if prev < cur {
        Trend::Deeper
    } else {
        Trend::Shallower
    }
}

pub open spec fn trend_ink(t: Trend) -> Ink {
    match t {
        Trend::Level => Ink::Rgb(222, 222, 222),
        Trend::Deeper => Ink::Rgb(0, 222, 0),
        Trend::Shallower => Ink::Rgb(0, 122, 0),
    }
}

/// How depth `cur` compares with the previous line's depth `prev`.
pub fn depth_trend(prev: u32, cur: u32) -> (r: Trend)
    ensures
        r == trend_of(prev as nat, cur as nat),
{
    if prev == cur {
        Trend::Level
    } else if prev < cur {
        Trend::Deeper
    } else {
        Trend::Shallower
    }
}

/// Columns that the specifier column takes before the source text.
pub open spec fn margin() -> nat {
    50
}

/// Fill after a specifier of `len` characters, so that the column ends at
/// the margin; none where the specifier is longer.
pub open spec fn pad_width(len: nat) -> nat {
    if len <= margin() {
        (margin() - len) as nat
    } else {
        0
    }
}

pub open spec fn spaces(n: nat) -> Seq<char> {
    Seq::new(n, |i: int| ' ')
}

/// The specifier column: verbatim on a thread's first line, else
/// highlighted against the previous specifier.
pub open spec fn specifier_column(prev_line: Option<Seq<char>>, spec: Seq<char>) -> Seq<char> {
    match prev_line {
        None => spec,
        Some(p) => ansi_painted(highlighted(char_diff(p, spec))),
    }
}

/// A whole trace line, without its terminator:
/// `[<depth>] <specifier column><fill>: <source text>`.
pub open spec fn rendered_line(
    prev_depth: nat,
    depth: nat,
    prev_line: Option<Seq<char>>,
    spec: Seq<char>,
    source: Seq<char>,
) -> Seq<char> {
    seq!['['] + ansi_painted(seq![(trend_ink(trend_of(prev_depth, depth)), depth_label_spec(depth))])
        + seq![']', ' '] + specifier_column(prev_line, spec) + spaces(pad_width(spec.len()))
        + seq![':', ' '] + source
}

fn fill(n: usize) -> (r: String)
    ensures
        r@ == spaces(n as nat),
{
    proof {
        reveal_strlit(" ");
    }
    let mut s = String::new();
    let mut i: usize = 0;
    while i < n
        invariant
            i <= n,
            s@ == spaces(i as nat),
        decreases n - i,
    {
        proof {
            reveal_strlit(" ");
        }
        s.append(" ");
        assert(s@ =~= spaces((i + 1) as nat));
        i = i + 1;
    }
    s
}

/// Renders one trace line at depth `depth`, after a line at `prev_depth`
/// whose specifier was `prev_line`, for specifier `spec` and the source text
/// `source`.
pub fn render_line(prev_depth: u32, depth: u32, prev_line: &Option<String>, spec: &str, source: &str) -> (r: String)
    ensures
        r@ == rendered_line(
            prev_depth as nat,
            depth as nat,
            match prev_line {
                Some(p) => Some(p@),
                None => None,
            },
            spec@,
            source@,
        ),
{
    proof {
        reveal_strlit("[");
        reveal_strlit("] ");
        reveal_strlit(": ");
    }
    let ink = match depth_trend(prev_depth, depth) {
        Trend::Level => Ink::Rgb(222, 222, 222),
        Trend::Deeper => Ink::Rgb(0, 222, 0),
        Trend::Shallower => Ink::Rgb(0, 122, 0),
    };
    let label = Segment { ink, text: depth_label(depth) };
    let ghost label_view = (label.ink, label.text@);
    let mut depth_segs: Vec<Segment> = Vec::new();
    depth_segs.push(label);
    assert(segments_view(depth_segs@) =~= seq![label_view]);
    let mut s = String::from_str("[");
    let painted_depth = paint_segments(&depth_segs);
    s.append(painted_depth.as_str());
    s.append("] ");
    match prev_line {
        None => {
            s.append(spec);
        },
        Some(p) => {
            let segs = highlight_specifiers(p.as_str(), spec);
            let painted = paint_segments(&segs);
            s.append(painted.as_str());
        },
    }
    let len = spec.unicode_len();
    let width: usize = if len <= 50 { 50 - len } else { 0 };
    let pad = fill(width);
    s.append(pad.as_str());
    s.append(": ");
    s.append(source);
    assert(s@ =~= rendered_line(
        prev_depth as nat,
        depth as nat,
        match prev_line {
            Some(p) => Some(p@),
            None => None,
        },
        spec@,
        source@,
    ));
    s
}

} // verus!
