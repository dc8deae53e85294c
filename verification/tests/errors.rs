//! The classes of failure and how each is worded.

use graphvizm::error::{ErrorKind, GraphvizmError};

fn all() -> Vec<(GraphvizmError, ErrorKind, bool, &'static str)> {
    vec![
        (
            GraphvizmError::EngineInit("no compiler".to_string()),
            ErrorKind::EngineInit,
            true,
            "Failed to initialize Graphvizm engine: no compiler",
        ),
        (
            GraphvizmError::Load("bad magic".to_string()),
            ErrorKind::Load,
            true,
            "Failed to load Wasm component: bad magic",
        ),
        (
            GraphvizmError::Link("free-layout".to_string()),
            ErrorKind::Link,
            true,
            "Failed to link Wasm component: free-layout",
        ),
        (
            GraphvizmError::Trap("unreachable".to_string()),
            ErrorKind::Trap,
            true,
            "Sandbox fault: unreachable",
        ),
        (
            GraphvizmError::Domain("syntax error in line 1".to_string()),
            ErrorKind::Domain,
            false,
            "Graphviz render failed: syntax error in line 1",
        ),
        (GraphvizmError::InvalidHandle, ErrorKind::InvalidHandle, false, "Invalid handle"),
    ]
}

#[test]
fn each_failure_has_its_kind() {
    for (failure, kind, _, _) in all() {
        assert_eq!(failure.kind(), kind);
    }
}

#[test]
fn fatal_failures_are_those_of_the_sandbox() {
    for (failure, _, fatal, _) in all() {
        assert_eq!(failure.is_fatal(), fatal);
    }
}

#[test]
fn messages_put_the_prefix_before_the_detail() {
    for (failure, _, _, message) in all() {
        assert_eq!(failure.message(), message);
    }
}

#[test]
fn empty_detail_leaves_the_prefix() {
    assert_eq!(
        GraphvizmError::Domain(String::new()).message(),
        "Graphviz render failed: "
    );
}

#[test]
fn failures_compare_by_class_and_detail() {
    assert_eq!(GraphvizmError::Domain("a".to_string()), GraphvizmError::Domain("a".to_string()));
    assert_ne!(GraphvizmError::Domain("a".to_string()), GraphvizmError::Domain("b".to_string()));
    assert_ne!(GraphvizmError::Domain("a".to_string()), GraphvizmError::Trap("a".to_string()));
}
