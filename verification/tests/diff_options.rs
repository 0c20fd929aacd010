use perforce_cli::cmd::{DiffFormat, DiffOptions, DiffOptionsBuilder, WhitespaceHandling};

fn injected(opts: impl Into<DiffOptions>) -> Vec<String> {
    let mut args: Vec<String> = Vec::new();
    opts.into().inject_arg(&mut args);
    args
}

#[test]
fn default_emits_nothing() {
    assert!(injected(DiffOptionsBuilder::new()).is_empty());
    assert!(injected(DiffOptions::default()).is_empty());
}

#[test]
fn unified_format() {
    assert_eq!(injected(DiffOptionsBuilder::unified(None)), ["-du"]);
}

#[test]
fn unified_format_with_context() {
    assert_eq!(injected(DiffOptionsBuilder::unified(Some(3))), ["-du3"]);
}

#[test]
fn context_format() {
    assert_eq!(injected(DiffOptionsBuilder::context(None)), ["-dc"]);
    assert_eq!(injected(DiffOptionsBuilder::context(Some(5))), ["-dc5"]);
}

#[test]
fn rcs_format() {
    assert_eq!(injected(DiffOptionsBuilder::rcs()), ["-dn"]);
}

#[test]
fn summary_format() {
    assert_eq!(injected(DiffOptionsBuilder::summary()), ["-ds"]);
}

#[test]
fn whitespace_only() {
    assert_eq!(
        injected(DiffOptionsBuilder::new().ignore_line_endings()),
        ["-dl"]
    );
}

#[test]
fn unified_with_ignore_changes_within_whitespace() {
    assert_eq!(
        injected(DiffOptionsBuilder::unified(None).ignore_changes_within_whitespace()),
        ["-dub"]
    );
}

#[test]
fn context_with_ignore_all_whitespace() {
    assert_eq!(
        injected(DiffOptionsBuilder::context(Some(2)).ignore_all_whitespace()),
        ["-dc2w"]
    );
}

#[test]
fn raw_passthrough() {
    assert_eq!(injected(DiffOptionsBuilder::raw("-C 25")), ["-d-C 25"]);
    assert_eq!(injected(DiffOptionsBuilder::raw("--brief")), ["-d--brief"]);
}

#[test]
fn getters_reflect_variant() {
    let typed = DiffOptions::from(DiffOptionsBuilder::unified(Some(3)).ignore_line_endings());
    assert_eq!(typed.format(), Some(DiffFormat::Unified(Some(3))));
    assert_eq!(
        typed.whitespace_handling(),
        Some(WhitespaceHandling::IgnoreLineEndings)
    );
    assert_eq!(typed.raw_str(), None);

    let raw = DiffOptions::from(DiffOptionsBuilder::raw("abc"));
    assert_eq!(raw.format(), None);
    assert_eq!(raw.whitespace_handling(), None);
    assert_eq!(raw.raw_str(), Some("abc"));
}

#[test]
fn large_context_count_is_written_in_decimal() {
    assert_eq!(
        injected(DiffOptionsBuilder::unified(Some(4294967295))),
        ["-du4294967295"]
    );
    assert_eq!(injected(DiffOptionsBuilder::context(Some(0))), ["-dc0"]);
    assert_eq!(injected(DiffOptionsBuilder::context(Some(10))), ["-dc10"]);
}

#[test]
fn default_typed_options_emit_nothing_and_raw_empty_emits_bare_flag() {
    let typed = DiffOptions::from(DiffOptionsBuilder::new());
    assert_eq!(typed.format(), Some(DiffFormat::Default));
    assert_eq!(typed.whitespace_handling(), Some(WhitespaceHandling::NoHandling));
    assert!(injected(typed).is_empty());
    assert_eq!(injected(DiffOptionsBuilder::raw("")), ["-d"]);
    assert_eq!(injected(DiffOptions::from("x".to_string())), ["-dx"]);
}
