//! The expansion pipeline: from one type declaration to the two emitted
//! artifacts, or to a single diagnostic.
//!
//! Emission is all-or-nothing: when any stage reports an error, no partial
//! type and no merge implementation is produced for that declaration.

use crate::diag::Diagnostic;
use crate::diag::DiagKind;
use crate::diag::spec_message;
use crate::directive::PartialDirective;
use crate::directive::SpecDirective;
use crate::directive::partial_name_and_meta;
use crate::directive::spec_partial_name_and_meta;
use crate::mergegen::MergeOp;
use crate::mergegen::SpecMergeOp;
use crate::mergegen::merge_in_place;
use crate::mergegen::spec_merge_ops;
use crate::model::DataKind;
use crate::model::DeriveInput;
use crate::model::FieldDef;
use crate::model::FieldsKind;
use crate::model::spec_fields_of;
use crate::render::render_merge_impl;
use crate::render::render_partial_decl;
use crate::render::spec_render_merge_impl;
use crate::render::spec_render_partial_decl;
use crate::shape::PartialField;
use crate::shape::SpecPartialField;
use crate::shape::partial_fields;
use crate::shape::spec_partial_fields;
use vstd::prelude::*;
use vstd::string::StringExecFns;

verus! {

/// The two artifacts of a successful expansion, both as structured lists
/// and as rendered source text.
#[derive(Debug)]
pub struct Expansion {
    /// The parsed partial-declaration directive.
    pub partial: PartialDirective,
    /// The partial type's ordered field list.
    pub fields: Vec<PartialField>,
    /// The merge body's ordered operation list.
    pub ops: Vec<MergeOp>,
    /// The merge-capability implementation, rendered.
    pub merge_impl: String,
    /// The partial type declaration, rendered.
    pub partial_decl: String,
}

/// The mathematical content of a successful expansion.
pub ghost struct SpecExpansion {
    pub partial: SpecDirective,
    pub fields: Seq<SpecPartialField>,
    pub ops: Seq<SpecMergeOp>,
    pub merge_impl: Seq<char>,
    pub partial_decl: Seq<char>,
}

impl View for Expansion {
    type V = SpecExpansion;

    open spec fn view(&self) -> SpecExpansion {
        SpecExpansion {
            partial: self.partial@,
            fields: self.fields.deep_view(),
            ops: self.ops.deep_view(),
            merge_impl: self.merge_impl@,
            partial_decl: self.partial_decl@,
        }
    }
}

/// What expanding one declaration yields: on a record type with exactly one
/// well-formed partial directive, well-formed pass-through directives, known
/// strategies and named fields, the two artifacts; otherwise the first
/// stage's diagnostic, in pipeline order.
pub open spec fn spec_derive_merge_inner(input: DeriveInput) -> Result<SpecExpansion, Diagnostic> {
    match input.data {
        DataKind::Enum => Err(
            Diagnostic { kind: DiagKind::UnsupportedEnum, span: input.span },
        ),
        DataKind::Union => Err(
            Diagnostic { kind: DiagKind::UnsupportedUnion, span: input.span },
        ),
        DataKind::Struct(_) => {
            let fields = spec_fields_of(input.data);
            match spec_partial_name_and_meta(input) {
                Err(e) => Err(e),
                Ok(d) => match spec_partial_fields(fields, 0) {
                    Err(e) => Err(e),
                    Ok(pfs) => match spec_merge_ops(fields, 0) {
                        Err(e) => Err(e),
                        Ok(ops) => Ok(
                            SpecExpansion {
                                partial: d,
                                fields: pfs,
                                ops: ops,
                                merge_impl: spec_render_merge_impl(
                                    input.ident@,
                                    input.generics@,
                                    input.ty_generics@,
                                    input.where_clause@,
                                    d.name,
                                    ops,
                                ),
                                partial_decl: spec_render_partial_decl(
                                    d,
                                    input.vis@,
                                    input.generics@,
                                    input.where_clause@,
                                    pfs,
                                ),
                            },
                        ),
                    },
                },
            }
        },
    }
}

/// Expands one declaration, as [`spec_derive_merge_inner`] describes it.
pub fn derive_merge_inner(input: &DeriveInput) -> (r: Result<Expansion, Diagnostic>)
    requires
        input.wf(),
    ensures
        match spec_derive_merge_inner(*input) {
            Ok(e) => r is Ok && r->Ok_0@ == e,
            Err(e) => r is Err && r->Err_0 == e,
        },
{
    let empty: Vec<FieldDef> = Vec::new();
    let fields: &Vec<FieldDef> = match &input.data {
        DataKind::Enum => {
            return Err(Diagnostic { kind: DiagKind::UnsupportedEnum, span: input.span });
        },
        DataKind::Union => {
            return Err(Diagnostic { kind: DiagKind::UnsupportedUnion, span: input.span });
        },
        DataKind::Struct(FieldsKind::Named(fs)) => fs,
        DataKind::Struct(FieldsKind::Unnamed(fs)) => fs,
        DataKind::Struct(FieldsKind::Unit) => &empty,
    };
    proof {
        assert(fields@ =~= spec_fields_of(input.data));
    }
    let d = match partial_name_and_meta(input) {
        Err(e) => {
            return Err(e);
        },
        Ok(d) => d,
    };
    let pfs = match partial_fields(fields) {
        Err(e) => {
            return Err(e);
        },
        Ok(pfs) => pfs,
    };
    let ops = match merge_in_place(fields) {
        Err(e) => {
            return Err(e);
        },
        Ok(ops) => ops,
    };
    let merge_impl = render_merge_impl(
        input.ident.as_str(),
        input.generics.as_str(),
        input.ty_generics.as_str(),
        input.where_clause.as_str(),
        d.name.as_str(),
        &ops,
    );
    let partial_decl = render_partial_decl(
        &d,
        input.vis.as_str(),
        input.generics.as_str(),
        input.where_clause.as_str(),
        &pfs,
    );
    Ok(Expansion { partial: d, fields: pfs, ops, merge_impl, partial_decl })
}

/// Shape preservation, at the pipeline level: a successful expansion yields
/// exactly one partial field and one merge operation per base field, in
/// field declaration order; each partial field keeps its base field's name,
/// visibility and declared type (the renderer wraps exactly that type in
/// the optional container), and each operation names its field.
pub proof fn lemma_expansion_shape(input: DeriveInput)
    requires
        spec_derive_merge_inner(input) is Ok,
    ensures
        spec_derive_merge_inner(input)->Ok_0.fields.len() == spec_fields_of(input.data).len(),
        spec_derive_merge_inner(input)->Ok_0.ops.len() == spec_fields_of(input.data).len(),
        forall|k: int|
            0 <= k < spec_fields_of(input.data).len() ==> {
                let pf = #[trigger] spec_derive_merge_inner(input)->Ok_0.fields[k];
                let f = spec_fields_of(input.data)[k];
                pf.name == crate::shape::spec_opt_str_view(f.name) && pf.vis == f.vis@ && pf.ty
                    == f.ty@
            },
        forall|k: int|
            0 <= k < spec_fields_of(input.data).len() ==> (
            #[trigger] spec_derive_merge_inner(input)->Ok_0.ops[k]).name == spec_fields_of(
                input.data,
            )[k].name->0@,
{
    let fields = spec_fields_of(input.data);
    crate::shape::lemma_shape_preservation(fields, 0);
    crate::mergegen::lemma_ops_shape(fields, 0);
}

/// The textual result of an expansion: the two artifacts separated by a
/// blank line on success, a compile-error invocation carrying the
/// diagnostic's message on failure.
pub open spec fn spec_derive_merge(input: DeriveInput) -> Seq<char> {
    match spec_derive_merge_inner(input) {
        Ok(e) => e.merge_impl + "\n"@ + e.partial_decl,
        Err(d) => "::core::compile_error! { \""@ + spec_message(d.kind) + "\" }\n"@,
    }
}

/// Expands one declaration to source text, as [`spec_derive_merge`]
/// describes it. On failure the emitted text is a compile-error invocation;
/// [`derive_merge_inner`] exposes the diagnostic's span to hosts that
/// attribute errors precisely.
pub fn derive_merge(input: &DeriveInput) -> (r: String)
    requires
        input.wf(),
    ensures
        r@ == spec_derive_merge(*input),
{
    match derive_merge_inner(input) {
        Ok(e) => {
            let mut r = e.merge_impl;
            r.append("\n");
            r.append(e.partial_decl.as_str());
            r
        },
        Err(d) => {
            let mut r = String::from_str("::core::compile_error! { \"");
            let msg = d.message();
            r.append(msg.as_str());
            r.append("\" }\n");
            r
        },
    }
}

} // verus!
