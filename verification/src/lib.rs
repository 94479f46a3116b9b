//! Derives a "partial" counterpart of a record type together with a merge
//! operation that folds a partial value into a base value.
//!
//! The library has two halves:
//!
//! - the runtime [`Merge`] capability: an in-place merge and a by-value merge
//!   defined on top of it, implemented here for appendable containers; and
//! - the expansion engine (see [`derive::derive_merge_inner`]): given a
//!   modeled type declaration annotated with `partial` and `strategy`
//!   directives, it validates the directives and synthesizes the partial
//!   type declaration and the merge implementation, or reports a diagnostic.

pub mod derive;
pub mod diag;
pub mod directive;
pub mod mergegen;
pub mod model;
pub mod render;
pub mod scan;
pub mod semantics;
pub mod shape;
pub mod utils;

use vstd::prelude::*;
use vstd::string::StringExecFns;

verus! {

/// A capability for two types that can be merged into one.
///
/// The `Partial` type is merged into `Self`; it is intended to represent a
/// subset of the data in `Self`. Each implementation fixes what merging means
/// through the two spec functions: `merge_req` says when a merge is allowed,
/// and `merges_to` relates base, partial and merged value.
pub trait Merge<Partial>: Sized {
    /// When merging `other` into `self` is allowed.
    spec fn merge_req(self, other: Partial) -> bool;

    /// The relation between the base value, the partial value, and the value
    /// the merge produces.
    spec fn merges_to(self, other: Partial, merged: Self) -> bool;

    /// Merges `Self` and `Partial` together, mutating `Self` in place.
    fn merge_in_place(&mut self, other: Partial)
        requires
            (*old(self)).merge_req(other),
        ensures
            (*old(self)).merges_to(other, *final(self)),
    ;

    /// Merges `Self` and `Partial` together, returning a new `Self`.
    ///
    /// Defined in terms of [`Merge::merge_in_place`]: it mutates a fresh
    /// receiver and returns it.
    fn merge(self, other: Partial) -> (merged: Self)
        requires
            self.merge_req(other),
        ensures
            self.merges_to(other, merged),
    {
        let mut base = self;
        base.merge_in_place(other);
        base
    }
}

/// Implements [`Merge`] for vectors: merging appends every item of the
/// partial vector to the base vector, in order, rather than replacing it.
impl<T> Merge<Vec<T>> for Vec<T> {
    open spec fn merge_req(self, other: Vec<T>) -> bool {
        true
    }

    open spec fn merges_to(self, other: Vec<T>, merged: Self) -> bool {
        merged@ == self@ + other@
    }

    fn merge_in_place(&mut self, other: Vec<T>) {
        let mut items = other;
        self.append(&mut items);
    }
}

/// Implements [`Merge`] for strings: merging appends the partial string's
/// characters to the base string, in order.
impl Merge<String> for String {
    open spec fn merge_req(self, other: String) -> bool {
        true
    }

    open spec fn merges_to(self, other: String, merged: Self) -> bool {
        merged@ == self@ + other@
    }

    fn merge_in_place(&mut self, other: String) {
        self.append(other.as_str());
    }
}

} // verus!
