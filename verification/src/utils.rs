//! A reduced presentation of a declaration for compact diagnostics.
//!
//! When the partial-declaration directive is missing, the error should point
//! at the declaration itself, but a span over the whole body would flood the
//! diagnostic with unrelated field text. The presentation here re-renders
//! only the declaration's annotations, visibility, kind keyword, name and
//! generic parameter list, and its span joins only those parts' spans.

use crate::model::Annotation;
use crate::model::AnnArgs;
use crate::model::DataKind;
use crate::model::DeriveInput;
use crate::model::Span;
use crate::model::spec_join;
use vstd::prelude::*;
use vstd::string::StringExecFns;

verus! {

/// The rendering of one annotation, as written.
pub open spec fn spec_render_annotation(a: Annotation) -> Seq<char> {
    "#["@ + a.path@ + spec_render_ann_args(a.args) + "]"@
}

/// The rendering of an annotation's arguments.
pub open spec fn spec_render_ann_args(args: AnnArgs) -> Seq<char> {
    match args {
        AnnArgs::Bare => Seq::empty(),
        AnnArgs::List(s) => "("@ + s@ + ")"@,
        AnnArgs::Value(s) => " = "@ + s@,
    }
}

/// The rendering of the first `i` annotations, each followed by a space.
pub open spec fn spec_render_attrs_upto(attrs: Seq<Annotation>, i: int) -> Seq<char>
    decreases i,
{
    if i <= 0 {
        Seq::empty()
    } else {
        spec_render_attrs_upto(attrs, i - 1) + spec_render_annotation(attrs[i - 1]) + " "@
    }
}

/// The visibility marker followed by a space, or nothing when it is empty.
pub open spec fn spec_vis_part(vis: Seq<char>) -> Seq<char> {
    if vis.len() == 0 {
        Seq::empty()
    } else {
        vis + " "@
    }
}

/// The declaration's kind keyword.
pub open spec fn spec_kind_keyword(d: DataKind) -> Seq<char> {
    match d {
        DataKind::Struct(_) => "struct"@,
        DataKind::Enum => "enum"@,
        DataKind::Union => "union"@,
    }
}

/// The reduced presentation of a declaration: annotations, visibility, kind
/// keyword, name and generic parameter list, omitting the field list.
pub open spec fn spec_render_reduced(input: DeriveInput) -> Seq<char> {
    spec_render_attrs_upto(input.attrs@, input.attrs@.len() as int) + spec_vis_part(input.vis@)
        + spec_kind_keyword(input.data) + " "@ + input.ident@ + input.generics@
}

/// The join of the spans of the first `i` annotations with `acc`.
pub open spec fn spec_attrs_span_join(attrs: Seq<Annotation>, i: int, acc: Span) -> Span
    decreases i,
{
    if i <= 0 {
        acc
    } else {
        spec_join(spec_attrs_span_join(attrs, i - 1, acc), attrs[i - 1].span)
    }
}

/// The starting span for the reduced-span computation, before the
/// annotations' spans are joined in.
pub open spec fn spec_reduced_base(input: DeriveInput) -> Span {
    let base = if input.vis@.len() > 0 {
        spec_join(input.vis_span, input.ident_span)
    } else {
        input.ident_span
    };
    if input.generics@.len() > 0 {
        spec_join(base, input.generics_span)
    } else {
        base
    }
}

/// The span of the reduced presentation: the join of the spans of the parts
/// it renders.
pub open spec fn spec_reduced_span(input: DeriveInput) -> Span {
    spec_attrs_span_join(input.attrs@, input.attrs@.len() as int, spec_reduced_base(input))
}

/// A view of a declaration whose rendering omits the field list.
///
/// This is intended for error messages that do not want to span all fields
/// of a struct.
pub struct DeriveInputWithoutData<'a>(pub &'a DeriveInput);

impl<'a> DeriveInputWithoutData<'a> {
    /// Renders the reduced presentation onto the end of `tokens`.
    pub fn to_tokens(&self, tokens: &mut String)
        ensures
            final (tokens)@ == old(tokens)@ + spec_render_reduced(*self.0),
    {
        let ghost start: Seq<char> = tokens@;
        let n = self.0.attrs.len();
        let mut i: usize = 0;
        while i < n
            invariant
                n == self.0.attrs@.len(),
                i <= n,
                tokens@ == start + spec_render_attrs_upto(self.0.attrs@, i as int),
            decreases n - i,
        {
            let a = &self.0.attrs[i];
            tokens.append("#[");
            tokens.append(a.path.as_str());
            match &a.args {
                AnnArgs::Bare => {},
                AnnArgs::List(s) => {
                    tokens.append("(");
                    tokens.append(s.as_str());
                    tokens.append(")");
                },
                AnnArgs::Value(s) => {
                    tokens.append(" = ");
                    tokens.append(s.as_str());
                },
            }
            tokens.append("]");
            tokens.append(" ");
            proof {
                assert(tokens@ =~= start + spec_render_attrs_upto(self.0.attrs@, i as int + 1));
            }
            i = i + 1;
        }
        if self.0.vis.as_str().unicode_len() > 0 {
            tokens.append(self.0.vis.as_str());
            tokens.append(" ");
        }
        match &self.0.data {
            DataKind::Struct(_) => tokens.append("struct"),
            DataKind::Enum => tokens.append("enum"),
            DataKind::Union => tokens.append("union"),
        }
        tokens.append(" ");
        tokens.append(self.0.ident.as_str());
        tokens.append(self.0.generics.as_str());
        proof {
            assert(tokens@ =~= start + spec_render_reduced(*self.0));
        }
    }

    /// The span of the reduced presentation.
    pub fn reduced_span(&self) -> (r: Span)
        ensures
            r == spec_reduced_span(*self.0),
    {
        let mut acc: Span = if self.0.vis.as_str().unicode_len() > 0 {
            self.0.vis_span.join(self.0.ident_span)
        } else {
            self.0.ident_span
        };
        if self.0.generics.as_str().unicode_len() > 0 {
            acc = acc.join(self.0.generics_span);
        }
        let n = self.0.attrs.len();
        let mut i: usize = 0;
        while i < n
            invariant
                n == self.0.attrs@.len(),
                i <= n,
                acc == spec_attrs_span_join(self.0.attrs@, i as int, spec_reduced_base(*self.0)),
            decreases n - i,
        {
            acc = acc.join(self.0.attrs[i].span);
            i = i + 1;
        }
        acc
    }
}

} // verus!
