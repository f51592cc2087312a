use yew_cli::paths::{artifact_of, index_of, join, manifest_of, strip_marker};
use yew_cli::policy::is_excluded;
use yew_cli::text::{chain, ends_with, same_text, starts_with};

#[test]
fn same_text_compares_every_character() {
    assert!(same_text("build", "build"));
    assert!(same_text("", ""));
    assert!(!same_text("build", "built"));
    assert!(!same_text("build", "buil"));
    assert!(!same_text("", "x"));
}

#[test]
fn same_text_counts_characters_not_bytes() {
    assert!(same_text("caf\u{e9}", "caf\u{e9}"));
    assert!(!same_text("caf\u{e9}", "cafe"));
}

#[test]
fn starts_with_finds_a_prefix() {
    assert!(starts_with("wasm-pack", "wasm"));
    assert!(starts_with("wasm", "wasm"));
    assert!(starts_with("wasm", ""));
    assert!(!starts_with("was", "wasm"));
    assert!(!starts_with("xwasm", "wasm"));
}

#[test]
fn ends_with_finds_a_suffix() {
    assert!(ends_with("counter_wp", "_wp"));
    assert!(ends_with("_wp", "_wp"));
    assert!(ends_with("anything", ""));
    assert!(!ends_with("wp", "_wp"));
    assert!(!ends_with("counter_wp_", "_wp"));
}

#[test]
fn chain_puts_one_text_after_the_other() {
    assert_eq!(chain("counter", ".wasm"), "counter.wasm");
    assert_eq!(chain("", "x"), "x");
    assert_eq!(chain("x", ""), "x");
}

#[test]
fn strip_marker_removes_the_extended_length_marker() {
    assert_eq!(strip_marker("\\\\?\\C:\\work\\counter"), "C:\\work\\counter");
}

#[test]
fn strip_marker_keeps_a_path_without_marker() {
    assert_eq!(strip_marker("/work/counter"), "/work/counter");
    assert_eq!(strip_marker("C:\\work\\counter"), "C:\\work\\counter");
    assert_eq!(strip_marker(""), "");
}

#[test]
fn strip_marker_needs_the_whole_marker_at_the_start() {
    assert_eq!(strip_marker("\\\\?"), "\\\\?");
    assert_eq!(strip_marker("\\\\.\\C:"), "\\\\.\\C:");
    assert_eq!(strip_marker("a\\\\?\\b"), "a\\\\?\\b");
    assert_eq!(strip_marker("\\\\?\\"), "");
}

#[test]
fn strip_marker_removes_one_marker_only() {
    assert_eq!(strip_marker("\\\\?\\\\\\?\\C:"), "\\\\?\\C:");
}

#[test]
fn stripped_canonical_path_is_stable() {
    let once = strip_marker("\\\\?\\C:\\work\\counter");
    let twice = strip_marker(&once);
    assert_eq!(once, twice);
}

#[test]
fn join_puts_a_slash_between_base_and_leaf() {
    assert_eq!(join("/work/counter", "Cargo.toml"), "/work/counter/Cargo.toml");
}

#[test]
fn join_adds_no_second_slash() {
    assert_eq!(join("/", "target"), "/target");
    assert_eq!(join("/work/", "target"), "/work/target");
}

#[test]
fn join_below_an_empty_base_is_the_leaf() {
    assert_eq!(join("", "static"), "static");
}

#[test]
fn manifest_lies_at_the_root_of_the_project() {
    assert_eq!(manifest_of("/work/counter"), "/work/counter/Cargo.toml");
}

#[test]
fn index_lies_in_the_static_directory() {
    assert_eq!(index_of("/work/counter"), "/work/counter/static/index.html");
    assert_eq!(index_of("C:\\work\\counter"), "C:\\work\\counter/static/index.html");
}

#[test]
fn artifact_lies_below_the_workspace_target() {
    assert_eq!(
        artifact_of("/work", "counter"),
        "/work/target/wasm32-unknown-unknown/counter.wasm"
    );
    assert_eq!(artifact_of("/", "todomvc"), "/target/wasm32-unknown-unknown/todomvc.wasm");
}

#[test]
fn names_ending_in_wp_are_excluded() {
    assert!(is_excluded("counter_wp"));
    assert!(is_excluded("_wp"));
}

#[test]
fn multi_thread_is_excluded_by_name() {
    assert!(is_excluded("multi_thread"));
    assert!(!is_excluded("multi_thread2"));
    assert!(!is_excluded("my_multi_thread"));
}

#[test]
fn other_names_are_not_excluded() {
    assert!(!is_excluded("counter"));
    assert!(!is_excluded(""));
    assert!(!is_excluded("wp"));
    assert!(!is_excluded("counter_wp_old"));
    assert!(!is_excluded("counter_WP"));
}
