//! Span-attributed diagnostics for every validation failure.
//!
//! Every error the engine can raise is one of a fixed set of kinds; the
//! diagnostic pairs the kind with the source span the host should point at.
//! All errors are terminal for one declaration's expansion and never abort
//! the processing of other declarations.

use crate::model::Span;
use vstd::prelude::*;
use vstd::string::StringExecFns;

verus! {

/// The kinds of validation failure the engine can report.
#[derive(Clone, Copy, PartialEq, Eq, Debug)]
pub enum DiagKind {
    /// The declaration is a variant (tagged-union) type.
    UnsupportedEnum,
    /// The declaration is a union-of-overlapping-fields type.
    UnsupportedUnion,
    /// No partial-declaration directive was found on the type.
    MissingPartial,
    /// More than one partial-declaration directive was found on the type.
    MultiplePartial,
    /// A partial-declaration directive's argument list is malformed.
    MalformedPartialArgs,
    /// A strategy directive's argument list is malformed.
    MalformedStrategyArgs,
    /// A strategy directive names a strategy that does not exist.
    UnknownStrategy,
    /// A field has no name; defensive, reachable only through malformed
    /// internal construction.
    UnnamedField,
}

/// A validation failure, attributed to a source span.
#[derive(Clone, Copy, PartialEq, Eq, Debug)]
pub struct Diagnostic {
    pub kind: DiagKind,
    pub span: Span,
}

/// The human-readable message for each diagnostic kind.
pub open spec fn spec_message(k: DiagKind) -> Seq<char> {
    match k {
        DiagKind::UnsupportedEnum => "`#[derive(Merge)]` only works on structs, not enums"@,
        DiagKind::UnsupportedUnion => "`#[derive(Merge)]` only works on structs, not unions"@,
        DiagKind::MissingPartial => "expected `#[partial(...)]`"@,
        DiagKind::MultiplePartial => "multiple `#[partial(...)]` attributes on the struct is disallowed"@,
        DiagKind::MalformedPartialArgs => "expected `#[partial(...)]` to contain an identifier, optionally followed by comma-separated attributes"@,
        DiagKind::MalformedStrategyArgs => "expected `#[strategy(...)]` to contain a comma-separated list of strategy names"@,
        DiagKind::UnknownStrategy => "expected `#[strategy(overwrite)]` or `#[strategy(merge)]`"@,
        DiagKind::UnnamedField => "`#[derive(Merge)]` does not support tuple `struct`s"@,
    }
}

impl Diagnostic {
    /// The diagnostic's human-readable message.
    pub fn message(&self) -> (r: String)
        ensures
            r@ == spec_message(self.kind),
    {
        match self.kind {
            DiagKind::UnsupportedEnum => String::from_str(
                "`#[derive(Merge)]` only works on structs, not enums",
            ),
            DiagKind::UnsupportedUnion => String::from_str(
                "`#[derive(Merge)]` only works on structs, not unions",
            ),
            DiagKind::MissingPartial => String::from_str("expected `#[partial(...)]`"),
            DiagKind::MultiplePartial => String::from_str(
                "multiple `#[partial(...)]` attributes on the struct is disallowed",
            ),
            DiagKind::MalformedPartialArgs => String::from_str(
                "expected `#[partial(...)]` to contain an identifier, optionally followed by comma-separated attributes",
            ),
            DiagKind::MalformedStrategyArgs => String::from_str(
                "expected `#[strategy(...)]` to contain a comma-separated list of strategy names",
            ),
            DiagKind::UnknownStrategy => String::from_str(
                "expected `#[strategy(overwrite)]` or `#[strategy(merge)]`",
            ),
            DiagKind::UnnamedField => String::from_str(
                "`#[derive(Merge)]` does not support tuple `struct`s",
            ),
        }
    }
}

} // verus!
