//! Paths compare as the standard library compares them.

use std::path::Path;

use virt_container::path::same_path;

#[test]
fn paths_compare_by_their_components() {
    let paths = [
        "",
        "/",
        "//",
        "///",
        ".",
        "./",
        "..",
        "/.",
        "/./",
        "/..",
        "a",
        "a/",
        "a//",
        "/a",
        "//a",
        "/a/",
        "/a/.",
        "./a",
        "././a",
        "a/.",
        "a/./b",
        "a/b",
        "a//b",
        "a/../b",
        "/a/b",
        "/a/./b/",
        "/dev/termination-log",
        "/dev//termination-log",
        "/dev/termination-log/",
        "/dev/termination-logs",
        "/dev/./termination-log",
        ".a",
        "a.",
        "a/.b",
        "\u{e4}/\u{1f600}",
        "\u{e4}//\u{1f600}/",
        " ",
        "a b",
    ];
    for a in paths {
        for b in paths {
            assert_eq!(same_path(a, b), Path::new(a) == Path::new(b), "{:?} and {:?}", a, b);
        }
    }
}

#[test]
fn separators_and_dots_make_no_difference_inside() {
    assert!(same_path("/dev/termination-log", "/dev//./termination-log/"));
    assert!(!same_path("/dev/termination-log", "dev/termination-log"));
    assert!(!same_path("./a", "a"));
    assert!(!same_path("a/../b", "b"));
}
