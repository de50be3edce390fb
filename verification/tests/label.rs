use spawn_bot::label::{derive_label, fallback_label};
use spawn_bot::model::CommandMatch;
use spawn_bot::recognizer::recognize;

fn label_of(body: &str) -> String {
    let m = recognize(body);
    assert!(m.matched);
    derive_label(&m, body)
}

#[test]
fn bare_tokio_spawn_names_a_runtime_worker() {
    assert_eq!(label_of("tokio::spawn"), "tokio-runtime-worker");
}

#[test]
fn bare_thread_spawn_is_unnamed() {
    assert_eq!(label_of("thread::spawn"), "unnamed");
}

#[test]
fn std_thread_spawn_with_empty_call_is_unnamed() {
    assert_eq!(label_of("std::thread::spawn()"), "unnamed");
}

#[test]
fn tokio_spawn_in_inline_code_names_a_runtime_worker() {
    assert_eq!(label_of("`tokio::spawn()`"), "tokio-runtime-worker");
}

#[test]
fn default_label_follows_the_namespace() {
    for body in ["tokio::spawn", "tokio::spawn()", "`tokio::spawn`", "`tokio::spawn()`"] {
        assert_eq!(label_of(body), "tokio-runtime-worker");
    }
    for body in [
        "thread::spawn",
        "thread::spawn()",
        "`thread::spawn`",
        "`thread::spawn()`",
        "std::thread::spawn",
        "std::thread::spawn()",
        "`std::thread::spawn`",
        "`std::thread::spawn()`",
    ] {
        assert_eq!(label_of(body), "unnamed");
    }
}

#[test]
fn explicit_label_wins_over_the_default() {
    assert_eq!(label_of("tokio::spawn(\"mine\")"), "mine");
    assert_eq!(label_of("thread::spawn(\"tokio\")"), "tokio");
    assert_eq!(label_of("`std::thread::spawn(\"a b\")`"), "a b");
}

#[test]
fn explicit_empty_label_stays_empty() {
    assert_eq!(label_of("tokio::spawn(\"\")"), "");
}

#[test]
fn label_is_empty_only_where_the_command_said_so() {
    for body in ["tokio::spawn", "thread::spawn()", "tokio::spawn(\"x\")", "`std::thread::spawn`"] {
        assert!(!label_of(body).is_empty());
    }
}

#[test]
fn fallback_looks_at_the_whole_body() {
    assert_eq!(fallback_label("tokio"), "tokio-runtime-worker");
    assert_eq!(fallback_label("we use tokio here"), "tokio-runtime-worker");
    assert_eq!(fallback_label("xxtokio"), "tokio-runtime-worker");
    assert_eq!(fallback_label("ünï tokio"), "tokio-runtime-worker");
    assert_eq!(fallback_label("toki"), "unnamed");
    assert_eq!(fallback_label("Tokio"), "unnamed");
    assert_eq!(fallback_label("tok io"), "unnamed");
    assert_eq!(fallback_label("totokio"), "tokio-runtime-worker");
    assert_eq!(fallback_label(""), "unnamed");
}

#[test]
fn derive_label_reads_the_match_it_is_given() {
    let with = CommandMatch { explicit_label: Some("given".to_string()), matched: true };
    assert_eq!(derive_label(&with, "thread::spawn(\"other\")"), "given");
    let without = CommandMatch { explicit_label: None, matched: true };
    assert_eq!(derive_label(&without, "thread::spawn"), "unnamed");
    assert_eq!(derive_label(&without, "tokio::spawn"), "tokio-runtime-worker");
}
