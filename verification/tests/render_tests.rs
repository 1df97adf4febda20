//! The report's exact text: ordering, index field, indentation, edge cases.

use lerror::Error;

#[test]
fn test_io_error() {
    let c = Error::msg("Image not found", "lerror/tests/test.rs", 18, 5);
    assert_eq!(
        c.render(),
        "lerror::Error\n\n    0: lerror/tests/test.rs:18:5\n       Image not found\n"
    );
    let b = c.context("file not found", "lerror/tests/test.rs", 12, 9);
    assert_eq!(
        b.render(),
        "lerror::Error\n\n    0: lerror/tests/test.rs:12:9\n       file not found\n    1: lerror/tests/test.rs:18:5\n       Image not found\n"
    );
}

#[test]
fn test_test_io_error() {
    let c = Error::msg("Image not found", "tests/test.rs", 15, 5);
    assert_eq!(
        c.render(),
        "lerror::Error\n\n    0: tests/test.rs:15:5\n       Image not found\n"
    );
    let b = c.context("File not found", "tests/test.rs", 10, 9);
    assert_eq!(
        b.render(),
        "lerror::Error\n\n    0: tests/test.rs:10:9\n       File not found\n    1: tests/test.rs:15:5\n       Image not found\n"
    );
}

#[test]
fn rendering_twice_is_identical() {
    let e = Error::msg("origin", "a.rs", 1, 2).context("outer", "b.rs", 3, 4);
    let first = e.render();
    let second = e.render();
    assert_eq!(first, second);
}

#[test]
fn empty_message_renders_only_the_location_line() {
    let e = Error::msg("Image not found", "f.rs", 18, 5).context("", "f.rs", 12, 9);
    assert_eq!(
        e.render(),
        "lerror::Error\n\n    0: f.rs:12:9\n    1: f.rs:18:5\n       Image not found\n"
    );
}

#[test]
fn multi_line_message_keeps_its_breaks_indented() {
    let e = Error::msg("first\nsecond\nthird", "f.rs", 2, 1);
    assert_eq!(
        e.render(),
        "lerror::Error\n\n    0: f.rs:2:1\n       first\n       second\n       third\n"
    );
}

#[test]
fn indices_past_nine_stay_right_aligned() {
    let mut e = Error::msg("origin", "f.rs", 1, 1);
    for i in 0..12u32 {
        e = e.context("step", "f.rs", 100 + i, 3);
    }
    let out = e.render();
    assert!(out.contains("\n    9: f.rs:102:3\n"));
    assert!(out.contains("\n   10: f.rs:101:3\n"));
    assert!(out.contains("\n   11: f.rs:100:3\n"));
    assert!(out.ends_with("\n   12: f.rs:1:1\n       origin\n"));
}
