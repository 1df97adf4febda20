//! The propagation-point rewriting pass.
//!
//! A function body is taken as an expression tree.  A propagation point is a
//! `Try` node: a construct that, on failure of its operand, immediately
//! returns that failure from the enclosing function.  The pass walks the
//! tree depth first — nested propagation points are rewritten before the
//! point that contains them — and wraps the operand of every propagation
//! point in an attachment call with an empty message, unless the operand
//! already ends in an explicit attachment call.  The rewrite is purely
//! structural, so running it twice gives the same tree as running it once.

use vstd::prelude::*;

verus! {

/// An expression of a function body, as far as the pass needs to see it.
/// Anything without a propagation point inside may stand as an `Atom`
/// carrying its source text.
#[derive(Debug, PartialEq, Eq)]
pub enum Expr {
    /// An opaque expression, carried as its source text.
    Atom(String),
    /// A string literal, carrying its content.
    Lit(String),
    /// A function call: the callee's source text and the arguments.
    Call(String, ExprList),
    /// A method call: receiver, method name, arguments.
    MethodCall(Box<Expr>, String, ExprList),
    /// A propagation point: on failure of the operand, the enclosing
    /// function returns that failure at once.
    Try(Box<Expr>),
    /// A closure; a propagation point inside it belongs to the closure's
    /// own body, and is rewritten there.
    Closure(Box<Expr>),
}

/// The arguments of a call, in order.
#[derive(Debug, PartialEq, Eq)]
pub enum ExprList {
    Nil,
    Cons(Box<Expr>, Box<ExprList>),
}

/// The mathematical image of an expression: text as character sequences.
#[verifier::ext_equal]
pub ghost enum ExprModel {
    Atom(Seq<char>),
    Lit(Seq<char>),
    Call(Seq<char>, ExprListModel),
    MethodCall(Box<ExprModel>, Seq<char>, ExprListModel),
    Try(Box<ExprModel>),
    Closure(Box<ExprModel>),
}

/// The mathematical image of an argument list.
#[verifier::ext_equal]
pub ghost enum ExprListModel {
    Nil,
    Cons(Box<ExprModel>, Box<ExprListModel>),
}

/// The image of an expression.
pub open spec fn expr_model(e: Expr) -> ExprModel
    decreases e,
{
    match e {
        Expr::Atom(s) => ExprModel::Atom(s@),
        Expr::Lit(s) => ExprModel::Lit(s@),
        Expr::Call(f, args) => ExprModel::Call(f@, list_model(args)),
        Expr::MethodCall(recv, name, args) => ExprModel::MethodCall(
            Box::new(expr_model(*recv)),
            name@,
            list_model(args),
        ),
        Expr::Try(inner) => ExprModel::Try(Box::new(expr_model(*inner))),
        Expr::Closure(body) => ExprModel::Closure(Box::new(expr_model(*body))),
    }
}

/// The image of an argument list.
pub open spec fn list_model(l: ExprList) -> ExprListModel
    decreases l,
{
    match l {
        ExprList::Nil => ExprListModel::Nil,
        ExprList::Cons(h, t) => ExprListModel::Cons(
            Box::new(expr_model(*h)),
            Box::new(list_model(*t)),
        ),
    }
}

impl View for Expr {
    type V = ExprModel;

    open spec fn view(&self) -> ExprModel {
        expr_model(*self)
    }
}

impl View for ExprList {
    type V = ExprListModel;

    open spec fn view(&self) -> ExprListModel {
        list_model(*self)
    }
}

/// The name of the context-attachment method.
pub open spec fn attach_name() -> Seq<char> {
    "context"@
}

/// Whether an expression already ends in an explicit attachment call.
pub open spec fn ends_in_attachment(e: ExprModel) -> bool {
    match e {
        ExprModel::MethodCall(_, name, _) => name == attach_name(),
        _ => false,
    }
}

/// `e` wrapped in an attachment call with an empty message.
pub open spec fn empty_attachment(e: ExprModel) -> ExprModel {
    ExprModel::MethodCall(
        Box::new(e),
        attach_name(),
        ExprListModel::Cons(Box::new(ExprModel::Lit(Seq::empty())), Box::new(ExprListModel::Nil)),
    )
}

/// The rewriting pass.  Children are rewritten first; at each propagation
/// point, the (already rewritten) operand is wrapped in an attachment call
/// with an empty message unless it already ends in one.
pub open spec fn rewrite_model(e: ExprModel) -> ExprModel
    decreases e,
{
    match e {
        ExprModel::Atom(s) => ExprModel::Atom(s),
        ExprModel::Lit(s) => ExprModel::Lit(s),
        ExprModel::Call(f, args) => ExprModel::Call(f, rewrite_list(args)),
        ExprModel::MethodCall(recv, name, args) => ExprModel::MethodCall(
            Box::new(rewrite_model(*recv)),
            name,
            rewrite_list(args),
        ),
        ExprModel::Try(inner) => {
            let r = rewrite_model(*inner);
            if ends_in_attachment(r) {
                ExprModel::Try(Box::new(r))
            } else {
                ExprModel::Try(Box::new(empty_attachment(r)))
            }
        },
        ExprModel::Closure(body) => ExprModel::Closure(Box::new(rewrite_model(*body))),
    }
}

/// The pass over an argument list, element by element.
pub open spec fn rewrite_list(l: ExprListModel) -> ExprListModel
    decreases l,
{
    match l {
        ExprListModel::Nil => ExprListModel::Nil,
        ExprListModel::Cons(h, t) => ExprListModel::Cons(
            Box::new(rewrite_model(*h)),
            Box::new(rewrite_list(*t)),
        ),
    }
}

/// Every propagation point of `e` has an operand that ends in an attachment
/// call: no propagation point is frame-less.
pub open spec fn every_propagation_attaches(e: ExprModel) -> bool
    decreases e,
{
    match e {
        ExprModel::Atom(_) => true,
        ExprModel::Lit(_) => true,
        ExprModel::Call(_, args) => list_every_propagation_attaches(args),
        ExprModel::MethodCall(recv, _, args) => every_propagation_attaches(*recv)
            && list_every_propagation_attaches(args),
        ExprModel::Try(inner) => ends_in_attachment(*inner) && every_propagation_attaches(*inner),
        ExprModel::Closure(body) => every_propagation_attaches(*body),
    }
}

/// `every_propagation_attaches`, over an argument list.
pub open spec fn list_every_propagation_attaches(l: ExprListModel) -> bool
    decreases l,
{
    match l {
        ExprListModel::Nil => true,
        ExprListModel::Cons(h, t) => every_propagation_attaches(*h)
            && list_every_propagation_attaches(*t),
    }
}

/// Applying the pass twice to an expression gives the same result as
/// applying it once.
pub proof fn lemma_rewrite_idempotent(e: ExprModel)
    ensures
        rewrite_model(rewrite_model(e)) == rewrite_model(e),
    decreases e,
{
    reveal_with_fuel(rewrite_model, 4);
    reveal_with_fuel(rewrite_list, 3);
    match e {
        ExprModel::Atom(_) => {},
        ExprModel::Lit(_) => {},
        ExprModel::Call(_, args) => {
            lemma_rewrite_list_idempotent(args);
        },
        ExprModel::MethodCall(recv, _, args) => {
            lemma_rewrite_idempotent(*recv);
            lemma_rewrite_list_idempotent(args);
        },
        ExprModel::Try(inner) => {
            lemma_rewrite_idempotent(*inner);
        },
        ExprModel::Closure(body) => {
            lemma_rewrite_idempotent(*body);
        },
    }
}

/// Applying the pass twice to an argument list gives the same result as
/// applying it once.
pub proof fn lemma_rewrite_list_idempotent(l: ExprListModel)
    ensures
        rewrite_list(rewrite_list(l)) == rewrite_list(l),
    decreases l,
{
    match l {
        ExprListModel::Nil => {},
        ExprListModel::Cons(h, t) => {
            lemma_rewrite_idempotent(*h);
            lemma_rewrite_list_idempotent(*t);
        },
    }
}

/// A propagation point whose operand already ends in an explicit attachment
/// call, and whose operand the pass leaves unchanged, is itself left
/// unchanged: the pass inserts nothing at that point.
pub proof fn lemma_attached_operand_kept(inner: ExprModel)
    requires
        ends_in_attachment(inner),
        rewrite_model(inner) == inner,
    ensures
        rewrite_model(ExprModel::Try(Box::new(inner))) == ExprModel::Try(Box::new(inner)),
{
}

/// The pass never wraps an operand that, once its own contents are
/// rewritten, ends in an explicit attachment call.
pub proof fn lemma_no_double_attachment(inner: ExprModel)
    requires
        ends_in_attachment(rewrite_model(inner)),
    ensures
        rewrite_model(ExprModel::Try(Box::new(inner))) == ExprModel::Try(
            Box::new(rewrite_model(inner)),
        ),
{
}

/// After the pass, every propagation point attaches a frame.
pub proof fn lemma_rewrite_attaches(e: ExprModel)
    ensures
        every_propagation_attaches(rewrite_model(e)),
    decreases e,
{
    reveal_with_fuel(rewrite_model, 4);
    reveal_with_fuel(rewrite_list, 3);
    reveal_with_fuel(every_propagation_attaches, 4);
    reveal_with_fuel(list_every_propagation_attaches, 3);
    match e {
        ExprModel::Atom(_) => {},
        ExprModel::Lit(_) => {},
        ExprModel::Call(_, args) => {
            lemma_rewrite_list_attaches(args);
        },
        ExprModel::MethodCall(recv, _, args) => {
            lemma_rewrite_attaches(*recv);
            lemma_rewrite_list_attaches(args);
        },
        ExprModel::Try(inner) => {
            lemma_rewrite_attaches(*inner);
        },
        ExprModel::Closure(body) => {
            lemma_rewrite_attaches(*body);
        },
    }
}

/// After the pass, every propagation point in an argument list attaches a
/// frame.
pub proof fn lemma_rewrite_list_attaches(l: ExprListModel)
    ensures
        list_every_propagation_attaches(rewrite_list(l)),
    decreases l,
{
    match l {
        ExprListModel::Nil => {},
        ExprListModel::Cons(h, t) => {
            lemma_rewrite_attaches(*h);
            lemma_rewrite_list_attaches(*t);
        },
    }
}

/// The attachment method's name, as a string.
fn attachment_method_name() -> (r: String)
    ensures
        r@ == attach_name(),
{
    "context".to_owned()
}

impl Expr {
    /// Whether this expression already ends in an explicit attachment call.
    pub fn is_attachment(&self) -> (b: bool)
        ensures
            b == ends_in_attachment(self@),
    {
        match self {
            Expr::MethodCall(_, name, _) => {
                let attach = attachment_method_name();
                *name == attach
            },
            _ => false,
        }
    }

    /// Run the rewriting pass on this expression.
    pub fn rewrite(self) -> (r: Expr)
        ensures
            r@ == rewrite_model(self@),
        decreases self,
    {
        proof {
            reveal_with_fuel(expr_model, 4);
            reveal_with_fuel(list_model, 3);
            reveal_with_fuel(rewrite_model, 4);
            reveal_with_fuel(rewrite_list, 3);
        }
        match self {
            Expr::Atom(s) => Expr::Atom(s),
            Expr::Lit(s) => Expr::Lit(s),
            Expr::Call(f, args) => Expr::Call(f, args.rewrite_each()),
            Expr::MethodCall(recv, name, args) => Expr::MethodCall(
                Box::new((*recv).rewrite()),
                name,
                args.rewrite_each(),
            ),
            Expr::Try(inner) => {
                let r = (*inner).rewrite();
                if r.is_attachment() {
                    Expr::Try(Box::new(r))
                } else {
                    Expr::Try(Box::new(Expr::MethodCall(
                        Box::new(r),
                        attachment_method_name(),
                        ExprList::Cons(Box::new(Expr::Lit(String::new())), Box::new(ExprList::Nil)),
                    )))
                }
            },
            Expr::Closure(body) => Expr::Closure(Box::new((*body).rewrite())),
        }
    }
}

impl ExprList {
    /// Run the rewriting pass on every argument.
    pub fn rewrite_each(self) -> (r: ExprList)
        ensures
            r@ == rewrite_list(self@),
        decreases self,
    {
        match self {
            ExprList::Nil => ExprList::Nil,
            ExprList::Cons(h, t) => ExprList::Cons(
                Box::new((*h).rewrite()),
                Box::new((*t).rewrite_each()),
            ),
        }
    }
}

/// Rewrite a whole function body: afterwards every propagation point
/// attaches a (possibly empty) context frame, and running the pass again
/// would change nothing.
pub fn transform_try_operators(body: Expr) -> (r: Expr)
    ensures
        r@ == rewrite_model(body@),
        every_propagation_attaches(r@),
        rewrite_model(r@) == r@,
{
    proof {
        lemma_rewrite_attaches(body@);
        lemma_rewrite_idempotent(body@);
    }
    body.rewrite()
}

} // verus!
