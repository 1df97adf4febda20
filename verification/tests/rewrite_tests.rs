//! The rewriting pass on concrete expression trees.

use lerror::Expr;
use lerror::ExprList;
use lerror::transform_try_operators;

fn atom(s: &str) -> Expr {
    Expr::Atom(String::from(s))
}

fn nil() -> ExprList {
    ExprList::Nil
}

fn one(e: Expr) -> ExprList {
    ExprList::Cons(Box::new(e), Box::new(ExprList::Nil))
}

fn try_(e: Expr) -> Expr {
    Expr::Try(Box::new(e))
}

fn method(recv: Expr, name: &str, args: ExprList) -> Expr {
    Expr::MethodCall(Box::new(recv), String::from(name), args)
}

fn empty_attachment(e: Expr) -> Expr {
    method(e, "context", one(Expr::Lit(String::new())))
}

#[test]
fn bare_propagation_point_gains_an_empty_attachment() {
    let before = try_(Expr::Call(String::from("c"), nil()));
    let after = transform_try_operators(before);
    let expected = try_(empty_attachment(Expr::Call(String::from("c"), nil())));
    assert_eq!(after, expected);
}

#[test]
fn attached_operand_is_left_unchanged() {
    let before = try_(method(
        Expr::Call(String::from("c"), nil()),
        "context",
        one(Expr::Lit(String::from("file not found"))),
    ));
    let again = try_(method(
        Expr::Call(String::from("c"), nil()),
        "context",
        one(Expr::Lit(String::from("file not found"))),
    ));
    let after = transform_try_operators(before);
    assert_eq!(after, again);
}

#[test]
fn rewriting_twice_equals_rewriting_once() {
    let build = || {
        try_(method(
            try_(atom("fetch")),
            "map",
            one(Expr::Closure(Box::new(try_(atom("step"))))),
        ))
    };
    let once = transform_try_operators(build());
    let twice = transform_try_operators(transform_try_operators(build()));
    assert_eq!(once, twice);
}

#[test]
fn nested_points_are_rewritten_inside_an_attached_operand() {
    // the operand ends in an explicit attachment, but holds a bare
    // propagation point in an argument: only the inner point changes
    let before = try_(method(
        atom("recv"),
        "context",
        one(try_(atom("inner"))),
    ));
    let after = transform_try_operators(before);
    let expected = try_(method(
        atom("recv"),
        "context",
        one(try_(empty_attachment(atom("inner")))),
    ));
    assert_eq!(after, expected);
}

#[test]
fn closure_bodies_are_rewritten_in_their_own_scope() {
    let before = Expr::Closure(Box::new(try_(atom("io"))));
    let after = transform_try_operators(before);
    let expected = Expr::Closure(Box::new(try_(empty_attachment(atom("io")))));
    assert_eq!(after, expected);
}

#[test]
fn is_attachment_looks_at_the_method_name() {
    assert!(empty_attachment(atom("x")).is_attachment());
    assert!(method(atom("x"), "context", nil()).is_attachment());
    assert!(!method(atom("x"), "map", nil()).is_attachment());
    assert!(!atom("context").is_attachment());
}
