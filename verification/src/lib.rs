//! A lightweight error-propagation and diagnostics library.
//!
//! A failure is represented as an ordered chain of context frames, each
//! tagged with the source location where it was attached.  The chain is
//! rendered into a stable, human-readable report, and a structural rewriting
//! pass guarantees that every propagation point in a function body attaches
//! a (possibly empty) context frame.

use vstd::prelude::*;

pub mod chain;
pub mod fmt;
pub mod rewrite;
pub mod wrapper;

pub use chain::ContextError;
pub use chain::Error;
pub use chain::FrameModel;
pub use chain::attach_all;
pub use chain::attach_model;
pub use chain::frame_model;
pub use chain::lemma_attach_count;
pub use fmt::Indented;
pub use fmt::render_chain;
pub use rewrite::Expr;
pub use rewrite::ExprList;
pub use rewrite::ExprModel;
pub use rewrite::ExprListModel;
pub use rewrite::every_propagation_attaches;
pub use rewrite::lemma_attached_operand_kept;
pub use rewrite::lemma_no_double_attachment;
pub use rewrite::lemma_rewrite_attaches;
pub use rewrite::lemma_rewrite_idempotent;
pub use rewrite::rewrite_model;
pub use rewrite::transform_try_operators;
pub use wrapper::DisplayError;

verus! {

/// A successful outcome carrying `t`, typed against this library's error.
pub fn ok<T>(t: T) -> (r: core::result::Result<T, Error>)
    ensures
        r == core::result::Result::<T, Error>::Ok(t),
{
    core::result::Result::Ok(t)
}

/// Build a chain from an already formatted message; the chain holds exactly
/// that one frame.
pub fn format_err(message: &str, file: &str, line: u32, column: u32) -> (r: Error)
    ensures
        r@ == seq![frame_model(message@, file@, line, column)],
{
    Error::msg(message, file, line, column)
}

/// Hands the error back unchanged; it marks a freshly built error that the
/// caller must not drop silently.
#[must_use]
pub fn must_use(error: Error) -> (r: Error)
    ensures
        r == error,
{
    error
}

/// Attaching context to an outcome while it propagates: on failure a new
/// frame is pushed to the front of the chain, on success the outcome passes
/// through untouched.
pub trait Context<T>: Sized {
    /// Attach `context` at `file:line:column` to the failure, if any.
    fn context(self, context: &str, file: &str, line: u32, column: u32) -> core::result::Result<
        T,
        Error,
    >;

    /// Attach a lazily produced message: `producer` runs only when the
    /// outcome is a failure, never speculatively.
    fn with_context<F: FnOnce() -> String>(
        self,
        producer: F,
        file: &str,
        line: u32,
        column: u32,
    ) -> core::result::Result<T, Error>
        requires
            call_requires(producer, ()),
    ;
}

impl<T> Context<T> for core::result::Result<T, Error> {
    fn context(self, context: &str, file: &str, line: u32, column: u32) -> (r: core::result::Result<
        T,
        Error,
    >)
        ensures
            self is Ok ==> r == self,
            self is Err ==> r is Err && r->Err_0@ == attach_model(
                self->Err_0@,
                frame_model(context@, file@, line, column),
            ),
    {
        match self {
            core::result::Result::Ok(t) => core::result::Result::Ok(t),
            core::result::Result::Err(e) => core::result::Result::Err(
                e.context(context, file, line, column),
            ),
        }
    }

    fn with_context<F: FnOnce() -> String>(
        self,
        producer: F,
        file: &str,
        line: u32,
        column: u32,
    ) -> (r: core::result::Result<T, Error>)
        ensures
            self is Ok ==> r == self,
            self is Err ==> r is Err && exists|m: String|
                call_ensures(producer, (), m) && r->Err_0@ == attach_model(
                    self->Err_0@,
                    frame_model(m@, file@, line, column),
                ),
    {
        match self {
            core::result::Result::Ok(t) => core::result::Result::Ok(t),
            core::result::Result::Err(e) => {
                let m = producer();
                core::result::Result::Err(e.context(m.as_str(), file, line, column))
            },
        }
    }
}

} // verus!

