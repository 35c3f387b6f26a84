use web_session::error::CallError;
use web_session::paths::require_canonical_path;

fn ok(path: &str) -> bool {
    require_canonical_path(path).is_ok()
}

#[test]
fn accepts_plain_paths() {
    assert!(ok(""));
    assert!(ok("var"));
    assert!(ok("var/x"));
    assert!(ok("a/b/c"));
    assert!(ok("client/index.html"));
}

#[test]
fn accepts_trailing_slash() {
    assert!(ok("var/"));
    assert!(ok("docs/"));
    assert!(ok("a/b/"));
}

#[test]
fn accepts_leading_slash() {
    assert!(ok("/a"));
    assert!(ok("/"));
}

#[test]
fn accepts_dotted_names() {
    assert!(ok(".can-write"));
    assert!(ok("..."));
    assert!(ok("a.b/c.d"));
    assert!(ok(".hidden"));
    assert!(ok("a/..b"));
}

#[test]
fn rejects_dot_segment() {
    assert!(!ok("."));
    assert!(!ok("./"));
    assert!(!ok("a/./b"));
    assert!(!ok("x/."));
    assert!(!ok("/."));
}

#[test]
fn rejects_dot_dot_segment() {
    assert!(!ok(".."));
    assert!(!ok("../x"));
    assert!(!ok("a/.."));
    assert!(!ok("a/../b"));
    assert!(!ok("../"));
}

#[test]
fn rejects_internal_empty_segment() {
    assert!(!ok("a//b"));
    assert!(!ok("a//"));
    assert!(!ok("//x"));
    assert!(!ok("var//x"));
}

#[test]
fn rejected_path_is_named() {
    let e = require_canonical_path("a/../b").unwrap_err();
    assert_eq!(
        e,
        CallError::NonCanonicalPath {
            path: String::from("a/../b")
        }
    );
    assert_eq!(e.message(), "non-canonical path: a/../b");
}
