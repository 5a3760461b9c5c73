use backtrace_printer::Frame;
use backtrace_printer::Pattern;
use backtrace_printer::filter;

fn frame(file: Option<&str>, line: Option<usize>, function: &str) -> Frame {
    Frame { file: file.map(|f| f.to_string()), line, function: function.to_string() }
}

fn patterns(sources: &[&str]) -> Vec<Pattern> {
    sources.iter().map(|s| Pattern::new(s).unwrap()).collect()
}

#[test]
fn empty_blocklists_keep_all_frames() {
    let frames = vec![
        frame(Some("lib/internal.rs"), Some(3), "lib::internal::helper"),
        frame(None, None, "unknown"),
        frame(Some("app/main.rs"), Some(5), "app::main"),
    ];
    let kept = filter(&frames, &[], &[]);
    assert_eq!(kept, frames);
}

#[test]
fn file_blocklist_excludes_matching_files() {
    let frames = vec![
        frame(Some("lib/internal.rs"), Some(3), "lib::internal::helper"),
        frame(Some("app/main.rs"), Some(5), "app::main"),
    ];
    let fbl = patterns(&["^lib/"]);
    let kept = filter(&frames, &[], &fbl);
    assert_eq!(kept, vec![frame(Some("app/main.rs"), Some(5), "app::main")]);
}

#[test]
fn name_blocklist_excludes_matching_symbols() {
    let frames = vec![
        frame(Some("a.rs"), Some(1), "core::runtime::shim"),
        frame(Some("b.rs"), Some(2), "app::work"),
    ];
    let nbl = patterns(&["^core::"]);
    let kept = filter(&frames, &nbl, &[]);
    assert_eq!(kept, vec![frame(Some("b.rs"), Some(2), "app::work")]);
}

#[test]
fn file_exclusion_takes_precedence_over_name_check() {
    // The frame's file matches the file blocklist while its function symbol
    // matches nothing in the name blocklist: it is excluded all the same.
    let frames = vec![frame(Some("lib/internal.rs"), Some(3), "app::looks_innocent")];
    let nbl = patterns(&["^core::"]);
    let fbl = patterns(&["^lib/"]);
    let kept = filter(&frames, &nbl, &fbl);
    assert!(kept.is_empty());
}

#[test]
fn missing_file_immune_to_file_blocklist() {
    // A pattern that matches any text cannot exclude a frame without a file.
    let frames = vec![frame(None, None, "app::anonymous")];
    let fbl = patterns(&[".*"]);
    let kept = filter(&frames, &[], &fbl);
    assert_eq!(kept, frames);
}

#[test]
fn missing_file_frame_still_subject_to_name_blocklist() {
    let frames = vec![frame(None, None, "core::runtime::shim")];
    let nbl = patterns(&["^core::"]);
    let fbl = patterns(&[".*"]);
    let kept = filter(&frames, &nbl, &fbl);
    assert!(kept.is_empty());
}

#[test]
fn filtering_preserves_relative_order() {
    let frames = vec![
        frame(Some("a.rs"), Some(1), "first"),
        frame(Some("noise.rs"), Some(2), "second"),
        frame(Some("b.rs"), Some(3), "third"),
        frame(Some("noise.rs"), Some(4), "fourth"),
        frame(Some("c.rs"), Some(5), "fifth"),
    ];
    let fbl = patterns(&["noise"]);
    let kept = filter(&frames, &[], &fbl);
    assert_eq!(
        kept,
        vec![
            frame(Some("a.rs"), Some(1), "first"),
            frame(Some("b.rs"), Some(3), "third"),
            frame(Some("c.rs"), Some(5), "fifth"),
        ]
    );
}

#[test]
fn invalid_pattern_is_rejected() {
    assert!(Pattern::new("(").is_none());
    assert!(Pattern::new("^lib/").is_some());
}

#[test]
fn pattern_matches_substring_anywhere() {
    let p = Pattern::new("internal").unwrap();
    assert!(p.is_match("lib/internal.rs"));
    assert!(!p.is_match("app/main.rs"));
}
