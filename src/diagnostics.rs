//! The diagnostic sink used by the checker: a `sway_error` handler together
//! with a ghost record of every error reported through it.

use sway_error::error::CompileError;
use sway_error::handler::{ErrorEmitted, Handler};
use sway_types::Span;
use vstd::prelude::*;

verus! {

/// The category of a reported error.
#[derive(Clone, Copy, Debug, PartialEq, Eq, Structural)]
pub enum ErrorClass {
    /// A mistake in the user's source, such as an unknown type name.
    User,
    /// A broken invariant of the compiler itself.
    Internal,
}

/// One reported error, as the ghost record keeps it.
pub struct Reported {
    pub class: ErrorClass,
    pub span: Span,
}

/// A diagnostic handler with an append-only ghost record of what was
/// reported through it. The handler is private, so every error it holds went
/// through the methods below, which keep the record.
pub struct DiagnosticSink {
    handler: Handler,
    log: Ghost<Seq<Reported>>,
}

/// Relies on `Handler`'s `Default`: a handler with no diagnostics.
#[verifier::external_body]
fn empty_handler() -> Handler {
    Handler::default()
}

/// Relies on the `CompileError::Internal` variant, which holds the message and span.
#[verifier::external_body]
fn internal_error(msg: &'static str, span: Span) -> CompileError {
    CompileError::Internal(msg, span)
}

/// Relies on the `CompileError::UnknownTypeName` variant, which holds the name and span.
#[verifier::external_body]
fn unknown_type_name_error(name: String, span: Span) -> CompileError {
    CompileError::UnknownTypeName { name, span }
}

impl DiagnosticSink {
    /// The errors reported so far, oldest first.
    pub closed spec fn reports(&self) -> Seq<Reported> {
        self.log@
    }

    /// A sink with nothing reported.
    pub fn new() -> (r: DiagnosticSink)
        ensures
            r.reports() == Seq::<Reported>::empty(),
    {
        DiagnosticSink { handler: empty_handler(), log: Ghost(Seq::empty()) }
    }

    /// Reports a compiler-internal error at `span`.
    pub fn report_internal(&mut self, msg: &'static str, span: Span) -> (e: ErrorEmitted)
        ensures
            final(self).reports() == old(self).reports().push(
                Reported { class: ErrorClass::Internal, span },
            ),
    {
        let ghost entry = Reported { class: ErrorClass::Internal, span };
        let e = self.handler.emit_err(internal_error(msg, span));
        self.log = Ghost(self.log@.push(entry));
        e
    }

    /// Reports that no type named `name` is in scope at `span`.
    pub fn report_unknown_type(&mut self, name: String, span: &Span) -> (e: ErrorEmitted)
        ensures
            final(self).reports() == old(self).reports().push(
                Reported { class: ErrorClass::User, span: *span },
            ),
    {
        let ghost entry = Reported { class: ErrorClass::User, span: *span };
        let e = self.handler.emit_err(unknown_type_name_error(name, span.clone()));
        self.log = Ghost(self.log@.push(entry));
        e
    }

    /// Hands over the underlying handler, with every diagnostic it holds.
    pub fn into_handler(self) -> Handler {
        self.handler
    }
}

} // verus!
