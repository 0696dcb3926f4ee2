use instru::{
    decimal_string, depth_label, depth_trend, highlight, highlight_specifiers, render_line,
    specifier_text, statement, Class, Ink, LineError, Pos, Segment, Span, SpanKind, ThreadState,
    Trend, Wrapper,
};
use std::sync::Arc;

const FILE: &str = "src/sample.rs";

fn sample_lines() -> Arc<Vec<String>> {
    let lines: Vec<String> = (1..=20).map(|i| format!("line {}", i)).collect();
    Arc::new(lines)
}

fn loaded_state() -> ThreadState {
    let mut state = ThreadState::new();
    state.adopt(FILE, sample_lines());
    state
}

fn level_label(depth: &str) -> String {
    format!("\x1b[38;2;222;222;222m{}\x1b[0m", depth)
}

fn seg_parts(segs: &[Segment]) -> Vec<(Ink, String)> {
    segs.iter().map(|s| (s.ink, s.text.clone())).collect()
}

const MUTED: Ink = Ink::Rgb(120, 120, 120);

#[test]
fn decimal_digits() {
    assert_eq!(decimal_string(0), "0");
    assert_eq!(decimal_string(7), "7");
    assert_eq!(decimal_string(12), "12");
    assert_eq!(decimal_string(4294967295), "4294967295");
}

#[test]
fn depth_label_is_two_wide() {
    assert_eq!(depth_label(0), " 0");
    assert_eq!(depth_label(9), " 9");
    assert_eq!(depth_label(10), "10");
    assert_eq!(depth_label(123), "123");
}

#[test]
fn specifiers_by_class_and_position() {
    assert_eq!(specifier_text(Class::Fn, Pos::Enter, "f", "m", 10), "m:f:():(->10)");
    assert_eq!(specifier_text(Class::Fn, Pos::Leave, "f", "m", 10), "m:f:<-:(<-10)");
    assert_eq!(specifier_text(Class::Fn, Pos::At, "f", "m", 3), "m:f::(@@3)");
    assert_eq!(specifier_text(Class::Stmt, Pos::At, "s", "a::b", 7), "a::b:s::(@@7)");
    assert_eq!(specifier_text(Class::Block, Pos::Enter, "b", "m", 1), "m:b::(->1)");
}

#[test]
fn trend_of_depths() {
    assert_eq!(depth_trend(2, 2), Trend::Level);
    assert_eq!(depth_trend(1, 2), Trend::Deeper);
    assert_eq!(depth_trend(3, 2), Trend::Shallower);
}

#[test]
fn resolve_line_gives_nth_line() {
    let state = loaded_state();
    assert_eq!(state.get_line(FILE, 1), Ok("line 1".to_string()));
    assert_eq!(state.get_line(FILE, 20), Ok("line 20".to_string()));
    assert_eq!(state.source_line(FILE, 5), "line 5");
}

#[test]
fn resolve_line_repeats_identically() {
    let mut state = loaded_state();
    let first = state.get_line(FILE, 4);
    let other: Vec<String> = vec!["changed".to_string(); 30];
    state.adopt(FILE, Arc::new(other));
    assert_eq!(state.get_line(FILE, 4), first);
    assert_eq!(state.get_line(FILE, 25), Err(LineError::OutOfRange));
}

#[test]
fn resolve_line_rejects_zero_and_past_end() {
    let state = loaded_state();
    assert_eq!(state.get_line(FILE, 0), Err(LineError::ZeroLine));
    assert_eq!(state.get_line(FILE, 21), Err(LineError::OutOfRange));
    assert_eq!(state.get_line("other.rs", 1), Err(LineError::NotLoaded));
}

#[test]
fn adopt_new_file() {
    let mut state = loaded_state();
    assert!(!state.is_loaded("b.rs"));
    state.adopt("b.rs", Arc::new(vec!["only".to_string()]));
    assert!(state.is_loaded("b.rs"));
    assert!(state.is_loaded(FILE));
    assert_eq!(state.get_line("b.rs", 1), Ok("only".to_string()));
}

#[test]
fn enter_and_leave_depth() {
    let mut state = ThreadState::new();
    assert_eq!(state.enter(), 0);
    assert_eq!(state.enter(), 1);
    assert_eq!(state.depth(), 2);
    assert_eq!(state.leave(), 1);
    assert_eq!(state.leave(), 0);
    assert_eq!(state.depth(), 0);
}

#[test]
fn record_returns_previous() {
    let mut state = ThreadState::new();
    state.enter();
    assert_eq!(state.record("a".to_string()), (0, None));
    assert_eq!(state.prev_depth(), 1);
    assert_eq!(state.record("b".to_string()), (1, Some("a".to_string())));
}

#[test]
fn threads_have_independent_depth() {
    let mut first = loaded_state();
    let mut second = loaded_state();
    let (_a, _) = Wrapper::new(Class::Fn, "a", "m", FILE, 1, &mut first);
    let (_b, _) = Wrapper::new(Class::Block, "b", "m", FILE, 2, &mut first);
    assert_eq!(first.depth(), 2);
    let (_c, line) = Wrapper::new(Class::Fn, "c", "m", FILE, 3, &mut second);
    assert!(line.starts_with(&format!("[{}] ", level_label(" 0"))));
    assert_eq!(second.depth(), 1);
}

#[test]
fn diff_of_changed_marker() {
    let segs = highlight_specifiers("mod:foo:(->12)", "mod:foo:(@@12)");
    assert_eq!(
        seg_parts(&segs),
        vec![
            (MUTED, "mod:foo:(".to_string()),
            (Ink::BoldWhite, "@@".to_string()),
            (Ink::BoldWhite, "12)".to_string()),
        ]
    );
}

#[test]
fn diff_of_identical_specifiers_is_muted() {
    let segs = highlight_specifiers("mod:foo:(->12)", "mod:foo:(->12)");
    assert_eq!(seg_parts(&segs), vec![(MUTED, "mod:foo:(->12)".to_string())]);
    assert!(segs.iter().all(|s| s.ink != Ink::BoldWhite));
}

#[test]
fn highlight_after_removal_emphasizes() {
    let spans = vec![
        Span { kind: SpanKind::Same, text: "ab".to_string() },
        Span { kind: SpanKind::Added, text: "x".to_string() },
        Span { kind: SpanKind::Same, text: "cd".to_string() },
        Span { kind: SpanKind::Removed, text: "y".to_string() },
        Span { kind: SpanKind::Same, text: "ef".to_string() },
    ];
    assert_eq!(
        seg_parts(&highlight(&spans)),
        vec![
            (MUTED, "ab".to_string()),
            (Ink::BoldWhite, "x".to_string()),
            (MUTED, "cd".to_string()),
            (Ink::BoldWhite, "ef".to_string()),
        ]
    );
    assert!(highlight(&Vec::new()).is_empty());
}

#[test]
fn first_line_is_verbatim_and_padded() {
    let line = render_line(0, 0, &None, "m:f:():(->10)", "fn f() {");
    let expected = format!("[{}] m:f:():(->10){}: fn f() {{", level_label(" 0"), " ".repeat(37));
    assert_eq!(line, expected);
}

#[test]
fn long_specifier_gets_no_fill() {
    let spec = "x".repeat(60);
    let line = render_line(0, 0, &None, &spec, "src");
    assert_eq!(line, format!("[{}] {}: src", level_label(" 0"), spec));
}

#[test]
fn depth_colours() {
    let deeper = render_line(0, 1, &None, "s", "t");
    assert!(deeper.starts_with("[\x1b[38;2;0;222;0m 1\x1b[0m] "));
    let shallower = render_line(2, 1, &None, "s", "t");
    assert!(shallower.starts_with("[\x1b[38;2;0;122;0m 1\x1b[0m] "));
}

#[test]
fn later_line_is_painted() {
    let line = render_line(0, 0, &Some("m:f:():(->10)".to_string()), "m:f:():(->10)", "x");
    let body = "\x1b[38;2;120;120;120mm:f:():(->10)\x1b[0m";
    assert_eq!(line, format!("[{}] {}{}: x", level_label(" 0"), body, " ".repeat(37)));
}

#[test]
fn enter_then_leave_function() {
    let mut state = loaded_state();
    let (w, enter) = Wrapper::new(Class::Fn, "f", "m", FILE, 10, &mut state);
    assert_eq!(state.depth(), 1);
    let leave = w.release(&mut state).unwrap();
    assert_eq!(state.depth(), 0);
    let pad = " ".repeat(37);
    assert_eq!(enter, format!("[{}] m:f:():(->10){}: line 10", level_label(" 0"), pad));
    assert!(leave.starts_with(&format!("[{}] ", level_label(" 0"))));
    assert!(leave.ends_with(&format!("{}: line 10", pad)));
    assert!(leave.contains("<-"));
}

#[test]
fn nested_scope_goes_one_deeper() {
    let mut state = loaded_state();
    let (f, _) = Wrapper::new(Class::Fn, "f", "m", FILE, 10, &mut state);
    let (b, inner) = Wrapper::new(Class::Block, "b", "m", FILE, 11, &mut state);
    assert!(inner.starts_with("[\x1b[38;2;0;222;0m 1\x1b[0m] "));
    let inner_leave = b.release(&mut state).unwrap();
    assert!(inner_leave.starts_with("[\x1b[38;2;222;222;222m 1\x1b[0m] "));
    let outer_leave = f.release(&mut state).unwrap();
    assert!(outer_leave.starts_with("[\x1b[38;2;0;122;0m 0\x1b[0m] "));
    assert_eq!(state.depth(), 0);
}

#[test]
fn statement_keeps_depth() {
    let mut state = loaded_state();
    let (_f, _) = Wrapper::new(Class::Fn, "f", "m", FILE, 10, &mut state);
    let line = statement("s", "m", FILE, 12, &mut state);
    assert_eq!(state.depth(), 1);
    assert!(line.ends_with(": line 12"));
    let (w, _) = Wrapper::new(Class::Stmt, "t", "m", FILE, 13, &mut state);
    assert_eq!(state.depth(), 1);
    assert_eq!(w.release(&mut state), None);
    assert_eq!(state.depth(), 1);
}
