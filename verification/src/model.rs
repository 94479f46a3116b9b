//! The modeled input: a named, optionally generic record type declaration
//! with annotated fields, as the host compilation pipeline supplies it.
//!
//! The declaration is read-only input to the expansion engine. Every piece of
//! source text (names, types, generic parameter lists, annotation arguments)
//! is carried verbatim; positions are carried as [`Span`]s in the host's
//! units, so every diagnostic can be attributed precisely.

use vstd::prelude::*;

verus! {

/// A half-open source range, in the host's position units.
#[derive(Clone, Copy, PartialEq, Eq, Debug)]
pub struct Span {
    pub lo: usize,
    pub hi: usize,
}

/// The smallest span covering both `a` and `b`.
pub open spec fn spec_join(a: Span, b: Span) -> Span {
    Span {
        lo: if a.lo <= b.lo {
            a.lo
        } else {
            b.lo
        },
        hi: if a.hi >= b.hi {
            a.hi
        } else {
            b.hi
        },
    }
}

impl Span {
    /// The smallest span covering both `self` and `other`.
    pub fn join(self, other: Span) -> (r: Span)
        ensures
            r == spec_join(self, other),
    {
        Span {
            lo: if self.lo <= other.lo {
                self.lo
            } else {
                other.lo
            },
            hi: if self.hi >= other.hi {
                self.hi
            } else {
                other.hi
            },
        }
    }
}

/// The arguments attached to an annotation.
#[derive(Clone, Debug)]
pub enum AnnArgs {
    /// A bare annotation without arguments, as in `#[tag]`.
    Bare,
    /// A parenthesized argument list, as in `#[tag(...)]`; carries the text
    /// between the parentheses.
    List(String),
    /// A value assigned with `=`, as in `#[tag = value]`; carries the text
    /// after the equals sign.
    Value(String),
}

/// One annotation attached to a declaration or a field.
///
/// Annotations whose tag this engine does not recognize are opaque: their
/// text is never interpreted, only copied.
#[derive(Clone, Debug)]
pub struct Annotation {
    /// The annotation's tag (its path, as written).
    pub path: String,
    /// The annotation's arguments.
    pub args: AnnArgs,
    /// The span of the whole annotation.
    pub span: Span,
    /// The position of the first character of the argument text, for `List`
    /// arguments; positions inside the argument text are attributed relative
    /// to it.
    pub args_lo: usize,
}

impl Annotation {
    /// Positions inside the argument text stay representable.
    pub open spec fn wf(self) -> bool {
        match self.args {
            AnnArgs::List(s) => self.args_lo + s@.len() <= usize::MAX,
            _ => true,
        }
    }
}

/// One field of the base type declaration.
#[derive(Clone, Debug)]
pub struct FieldDef {
    /// The field's annotations, in order.
    pub attrs: Vec<Annotation>,
    /// The field's visibility marker, verbatim (possibly empty).
    pub vis: String,
    /// The field's name; absent only for positional fields.
    pub name: Option<String>,
    /// The field's declared type, verbatim.
    pub ty: String,
    /// The span of the whole field.
    pub span: Span,
}

impl FieldDef {
    pub open spec fn wf(self) -> bool {
        forall|i: int| 0 <= i < self.attrs@.len() ==> (#[trigger] self.attrs@[i]).wf()
    }
}

/// The shape of a record type's field list.
#[derive(Clone, Debug)]
pub enum FieldsKind {
    /// Named fields, as in `struct S { a: T }`.
    Named(Vec<FieldDef>),
    /// Positional fields, as in `struct S(T)`.
    Unnamed(Vec<FieldDef>),
    /// No field list at all, as in `struct S;`.
    Unit,
}

/// The kind of data the declaration describes.
#[derive(Clone, Debug)]
pub enum DataKind {
    /// A record type with its field list.
    Struct(FieldsKind),
    /// A variant (tagged-union) type; rejected by the engine.
    Enum,
    /// A union-of-overlapping-fields type; rejected by the engine.
    Union,
}

/// The field list of a data kind; empty for unit structs and for the
/// rejected kinds.
pub open spec fn spec_fields_of(d: DataKind) -> Seq<FieldDef> {
    match d {
        DataKind::Struct(FieldsKind::Named(fs)) => fs@,
        DataKind::Struct(FieldsKind::Unnamed(fs)) => fs@,
        _ => Seq::empty(),
    }
}

/// A type declaration, as handed to the engine by the host pipeline.
#[derive(Clone, Debug)]
pub struct DeriveInput {
    /// The declaration's annotations, in order.
    pub attrs: Vec<Annotation>,
    /// The visibility marker, verbatim (possibly empty).
    pub vis: String,
    /// The declared type's name.
    pub ident: String,
    /// The generic parameter list with its bounds, verbatim (for example
    /// `<T: Clone>`), or empty.
    pub generics: String,
    /// The generic argument list for use sites (for example `<T>`), or empty.
    pub ty_generics: String,
    /// The where-clause, verbatim, or empty.
    pub where_clause: String,
    /// What the declaration declares.
    pub data: DataKind,
    /// The span of the whole declaration.
    pub span: Span,
    /// The span of the visibility marker, meaningful when `vis` is nonempty.
    pub vis_span: Span,
    /// The span of the declared name.
    pub ident_span: Span,
    /// The span of the generic parameter list, meaningful when `generics` is
    /// nonempty.
    pub generics_span: Span,
}

impl DeriveInput {
    pub open spec fn wf(self) -> bool {
        &&& forall|i: int| 0 <= i < self.attrs@.len() ==> (#[trigger] self.attrs@[i]).wf()
        &&& forall|i: int|
            0 <= i < spec_fields_of(self.data).len() ==> (#[trigger] spec_fields_of(
                self.data,
            )[i]).wf()
    }
}

} // verus!
