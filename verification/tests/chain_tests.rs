//! Construction and attachment: the chain's length, order and content.

use lerror::Context;
use lerror::Error;

#[test]
fn construction_yields_exactly_one_frame() {
    let e = Error::msg("boom", "main.rs", 3, 7);
    assert_eq!(e.len(), 1);
    assert_eq!(e.frame(0).context, "boom");
    assert_eq!(e.frame(0).file, "main.rs");
    assert_eq!(e.frame(0).line, 3);
    assert_eq!(e.frame(0).column, 7);

    let w = Error::new("disk full", "io.rs", 9, 1);
    assert_eq!(w.len(), 1);
    assert_eq!(w.frame(0).context, "disk full");
}

#[test]
fn each_attachment_adds_one_frame_in_front() {
    let mut e = Error::msg("origin", "a.rs", 1, 1);
    for i in 0..5u32 {
        e = e.context("step", "b.rs", 10 + i, 2);
        assert_eq!(e.len(), (i + 2) as usize);
        assert_eq!(e.frame(0).line, 10 + i);
    }
    // the origin is still the last frame
    assert_eq!(e.frame(5).context, "origin");
    assert_eq!(e.frame(5).file, "a.rs");
}

#[test]
fn context_on_result_touches_only_failures() {
    let good: Result<u8, Error> = lerror::ok(5);
    let still_good = good.context("never attached", "x.rs", 1, 1);
    match still_good {
        Ok(v) => assert_eq!(v, 5),
        Err(_) => panic!("success must pass through untouched"),
    }

    let bad: Result<u8, Error> = Err(Error::msg("origin", "x.rs", 2, 2));
    let worse = bad.context("outer", "x.rs", 3, 3);
    let e = worse.unwrap_err();
    assert_eq!(e.len(), 2);
    assert_eq!(e.frame(0).context, "outer");
    assert_eq!(e.frame(1).context, "origin");
}

#[test]
fn with_context_runs_the_producer_on_the_failure_path() {
    let bad: Result<u8, Error> = Err(Error::msg("origin", "x.rs", 2, 2));
    let worse = bad.with_context(|| format!("failed at step {}", 4), "x.rs", 5, 6);
    let e = worse.unwrap_err();
    assert_eq!(e.len(), 2);
    assert_eq!(e.frame(0).context, "failed at step 4");
    assert_eq!(e.frame(0).line, 5);
    assert_eq!(e.frame(0).column, 6);

    let good: Result<u8, Error> = lerror::ok(1);
    let still_good = good.with_context(|| String::from("unused"), "x.rs", 7, 8);
    match still_good {
        Ok(v) => assert_eq!(v, 1),
        Err(_) => panic!("success must pass through untouched"),
    }
}

#[test]
fn format_err_and_must_use_build_and_keep_a_chain() {
    let e = lerror::format_err("bad input", "cli.rs", 4, 11);
    let e = lerror::must_use(e);
    assert_eq!(e.len(), 1);
    assert_eq!(e.frame(0).context, "bad input");
    assert_eq!(e.frame(0).column, 11);
}

#[test]
fn display_error_carries_its_value() {
    let d = lerror::DisplayError(42u32);
    assert_eq!(d.0, 42);
    assert_eq!(d.into_inner(), 42);
}
