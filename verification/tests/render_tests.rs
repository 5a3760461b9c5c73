use backtrace_printer::Frame;
use backtrace_printer::Pattern;
use backtrace_printer::filter;
use backtrace_printer::render;
use backtrace_printer::render_decorated;

fn frame(file: Option<&str>, line: Option<usize>, function: &str) -> Frame {
    Frame { file: file.map(|f| f.to_string()), line, function: function.to_string() }
}

#[test]
fn renders_file_line_and_symbol() {
    let frames = vec![frame(Some("a.rs"), Some(10), "foo")];
    assert_eq!(render(&frames), "a.rs:10\n\tfoo\n\n");
}

#[test]
fn renders_placeholder_without_file_or_line() {
    let frames = vec![frame(None, None, "bar")];
    assert_eq!(render(&frames), "<no file>\n\tbar\n\n");
}

#[test]
fn renders_file_without_line() {
    let frames = vec![frame(Some("a.rs"), None, "foo")];
    assert_eq!(render(&frames), "a.rs\n\tfoo\n\n");
}

#[test]
fn never_renders_line_without_file() {
    let frames = vec![frame(None, Some(7), "bar")];
    assert_eq!(render(&frames), "<no file>\n\tbar\n\n");
}

#[test]
fn renders_multi_digit_line_numbers() {
    let frames = vec![frame(Some("deep.rs"), Some(1089), "nested::call")];
    assert_eq!(render(&frames), "deep.rs:1089\n\tnested::call\n\n");
}

#[test]
fn renders_line_zero() {
    let frames = vec![frame(Some("z.rs"), Some(0), "zero")];
    assert_eq!(render(&frames), "z.rs:0\n\tzero\n\n");
}

#[test]
fn renders_frames_in_sequence_with_no_extra_text() {
    let frames = vec![frame(Some("a.rs"), Some(1), "one"), frame(None, None, "two")];
    assert_eq!(render(&frames), "a.rs:1\n\tone\n\n<no file>\n\ttwo\n\n");
}

#[test]
fn renders_nothing_for_no_frames() {
    let frames: Vec<Frame> = vec![];
    assert_eq!(render(&frames), "");
}

#[test]
fn filtered_render_end_to_end() {
    let frames = vec![
        frame(Some("lib/internal.rs"), None, "lib::internal::helper"),
        frame(Some("app/main.rs"), Some(5), "app::main"),
    ];
    let fbl = vec![Pattern::new("^lib/").unwrap()];
    let kept = filter(&frames, &[], &fbl);
    assert_eq!(render(&kept), "app/main.rs:5\n\tapp::main\n\n");
}

#[test]
fn decorated_render_keeps_symbol_and_layout() {
    let frames = vec![frame(Some("a.rs"), Some(10), "foo")];
    let out = render_decorated(&frames);
    assert!(out.starts_with("a.rs:10\n\t"));
    assert!(out.ends_with("\n\n"));
    assert!(out.contains("foo"));
}
