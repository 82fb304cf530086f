//! Declarations of the types and functions of `sway_types` and `sway_error`
//! that the checker uses. Each value of these types is opaque here: it is
//! carried through, never inspected.

use vstd::prelude::*;

verus! {

/// `sway_types::Span`: a source location.
#[verifier::external_type_specification]
#[verifier::external_body]
pub struct ExSpan(sway_types::Span);

/// `sway_types::BaseIdent` (`Ident`): a named identifier with its span.
#[verifier::external_type_specification]
#[verifier::external_body]
pub struct ExBaseIdent(sway_types::BaseIdent);

/// `sway_error::handler::Handler`: the sink that collects diagnostics.
#[verifier::external_type_specification]
#[verifier::external_body]
pub struct ExHandler(sway_error::handler::Handler);

/// `sway_error::handler::ErrorEmitted`: the token that proves an error was emitted.
#[verifier::external_type_specification]
#[verifier::external_body]
pub struct ExErrorEmitted(sway_error::handler::ErrorEmitted);

/// `sway_error::error::CompileError`: one diagnostic.
#[verifier::external_type_specification]
#[verifier::external_body]
pub struct ExCompileError(sway_error::error::CompileError);

/// Relies on `Span::dummy`: a span tied to no source; it panics on no input.
pub assume_specification[ sway_types::Span::dummy ]() -> sway_types::Span;

/// Relies on `Span`'s `Clone`; nothing is stated of the copy.
pub assume_specification[ <sway_types::Span as Clone>::clone ](span: &sway_types::Span) -> sway_types::Span;

/// Relies on `Handler::emit_err`: it records `err` inside the handler (through
/// interior mutability) and returns the token; it panics on no input.
pub assume_specification[ sway_error::handler::Handler::emit_err ](
    handler: &sway_error::handler::Handler,
    err: sway_error::error::CompileError,
) -> sway_error::handler::ErrorEmitted;

} // verus!
