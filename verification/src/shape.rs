//! The partial-shape synthesizer: from the base type's ordered field list to
//! the partial type's field list.
//!
//! Every base field yields exactly one partial field with the same name and
//! visibility and the same declared type (the renderer wraps it in the
//! optional container); its annotations are the pass-through annotations
//! declared for that field, in order.

use crate::diag::DiagKind;
use crate::diag::Diagnostic;
use crate::model::AnnArgs;
use crate::model::Annotation;
use crate::model::FieldDef;
use crate::scan::collect_metas;
use crate::scan::scan_ok;
use crate::scan::spec_meta_pieces;
use crate::scan::split_top_level;
use crate::scan::str_eq;
use vstd::prelude::*;

verus! {

/// One field of the generated partial type.
#[derive(Debug)]
pub struct PartialField {
    /// The pass-through annotations to attach, verbatim and in order.
    pub metas: Vec<String>,
    /// The field's visibility marker, copied from the base field.
    pub vis: String,
    /// The field's name, copied from the base field.
    pub name: Option<String>,
    /// The base field's declared type; the renderer wraps it in the optional
    /// container.
    pub ty: String,
}

/// The view of an optional text.
pub open spec fn spec_opt_str_view(o: Option<String>) -> Option<Seq<char>> {
    match o {
        Some(s) => Some(s@),
        None => None,
    }
}

/// The mathematical content of one partial field.
pub ghost struct SpecPartialField {
    pub metas: Seq<Seq<char>>,
    pub vis: Seq<char>,
    pub name: Option<Seq<char>>,
    pub ty: Seq<char>,
}

impl View for PartialField {
    type V = SpecPartialField;

    open spec fn view(&self) -> SpecPartialField {
        SpecPartialField {
            metas: self.metas.deep_view(),
            vis: self.vis@,
            name: spec_opt_str_view(self.name),
            ty: self.ty@,
        }
    }
}

impl DeepView for PartialField {
    type V = SpecPartialField;

    open spec fn deep_view(&self) -> SpecPartialField {
        self.view()
    }
}

/// Walks a field's annotations from index `i` on, collecting the
/// pass-through annotations of every field-level partial directive, in
/// order; a malformed argument list is an error at that annotation.
pub open spec fn spec_field_metas_scan(attrs: Seq<Annotation>, i: int) -> Result<
    Seq<Seq<char>>,
    Diagnostic,
>
    decreases attrs.len() - i,
{
    if i < 0 || i >= attrs.len() {
        Ok(Seq::empty())
    } else {
        let a = attrs[i];
        if a.path@ == "partial"@ {
            match a.args {
                AnnArgs::List(text) => {
                    if !scan_ok(text@) {
                        Err(Diagnostic { kind: DiagKind::MalformedPartialArgs, span: a.span })
                    } else {
                        match spec_meta_pieces(text@, 0) {
                            Err(_) => Err(
                                Diagnostic {
                                    kind: DiagKind::MalformedPartialArgs,
                                    span: a.span,
                                },
                            ),
                            Ok(ms) => match spec_field_metas_scan(attrs, i + 1) {
                                Ok(rest) => Ok(ms + rest),
                                Err(e) => Err(e),
                            },
                        }
                    }
                },
                _ => Err(Diagnostic { kind: DiagKind::MalformedPartialArgs, span: a.span }),
            }
        } else {
            spec_field_metas_scan(attrs, i + 1)
        }
    }
}

/// Prepends already-collected annotations to a scan's remaining result.
pub open spec fn spec_prepend_metas(v: Seq<Seq<char>>, r: Result<Seq<Seq<char>>, Diagnostic>) -> Result<
    Seq<Seq<char>>,
    Diagnostic,
> {
    match r {
        Ok(rest) => Ok(v + rest),
        Err(e) => Err(e),
    }
}

/// Collects one field's pass-through annotations, as
/// [`spec_field_metas_scan`] describes them.
pub fn field_partial_metas(field: &FieldDef) -> (r: Result<Vec<String>, Diagnostic>)
    ensures
        match spec_field_metas_scan(field.attrs@, 0) {
            Ok(ms) => r is Ok && r->Ok_0.deep_view() == ms,
            Err(e) => r is Err && r->Err_0 == e,
        },
{
    let n = field.attrs.len();
    let mut metas: Vec<String> = Vec::new();
    let mut i: usize = 0;
    while i < n
        invariant
            n == field.attrs@.len(),
            i <= n,
            spec_field_metas_scan(field.attrs@, 0) == spec_prepend_metas(
                metas.deep_view(),
                spec_field_metas_scan(field.attrs@, i as int),
            ),
        decreases n - i,
    {
        let a = &field.attrs[i];
        if str_eq(a.path.as_str(), "partial") {
            match &a.args {
                AnnArgs::List(text) => {
                    let pieces = match split_top_level(text.as_str()) {
                        None => {
                            return Err(
                                Diagnostic { kind: DiagKind::MalformedPartialArgs, span: a.span },
                            );
                        },
                        Some(ps) => ps,
                    };
                    match collect_metas(text.as_str(), &pieces, 0) {
                        Err(_) => {
                            return Err(
                                Diagnostic { kind: DiagKind::MalformedPartialArgs, span: a.span },
                            );
                        },
                        Ok(ms) => {
                            let ghost before = metas.deep_view();
                            let ghost added = ms.deep_view();
                            let mut ms_mut = ms;
                            metas.append(&mut ms_mut);
                            proof {
                                assert(metas.deep_view() =~~= before + added);
                                assert(before + (added + spec_field_metas_scan(
                                    field.attrs@,
                                    i as int + 1,
                                )->Ok_0) =~~= (before + added) + spec_field_metas_scan(
                                    field.attrs@,
                                    i as int + 1,
                                )->Ok_0);
                            }
                        },
                    }
                },
                AnnArgs::Bare => {
                    return Err(
                        Diagnostic { kind: DiagKind::MalformedPartialArgs, span: a.span },
                    );
                },
                AnnArgs::Value(_) => {
                    return Err(
                        Diagnostic { kind: DiagKind::MalformedPartialArgs, span: a.span },
                    );
                },
            }
        }
        i = i + 1;
    }
    proof {
        assert(metas.deep_view() + spec_field_metas_scan(field.attrs@, i as int)->Ok_0
            =~~= metas.deep_view());
    }
    Ok(metas)
}

/// The partial field derived from one base field, given its collected
/// pass-through annotations.
pub open spec fn spec_partial_field(f: FieldDef, ms: Seq<Seq<char>>) -> SpecPartialField {
    SpecPartialField { metas: ms, vis: f.vis@, name: spec_opt_str_view(f.name), ty: f.ty@ }
}

/// Prepends already-synthesized partial fields to the remaining result.
pub open spec fn spec_prepend_fields(
    v: Seq<SpecPartialField>,
    r: Result<Seq<SpecPartialField>, Diagnostic>,
) -> Result<Seq<SpecPartialField>, Diagnostic> {
    match r {
        Ok(rest) => Ok(v + rest),
        Err(e) => Err(e),
    }
}

/// What synthesizing the partial type's field list from the base fields at
/// index `i` on yields: one partial field per base field, in order, or the
/// first field's diagnostic.
pub open spec fn spec_partial_fields(fields: Seq<FieldDef>, i: int) -> Result<
    Seq<SpecPartialField>,
    Diagnostic,
>
    decreases fields.len() - i,
{
    if i < 0 || i >= fields.len() {
        Ok(Seq::empty())
    } else {
        match spec_field_metas_scan(fields[i].attrs@, 0) {
            Err(e) => Err(e),
            Ok(ms) => match spec_partial_fields(fields, i + 1) {
                Err(e) => Err(e),
                Ok(rest) => Ok(seq![spec_partial_field(fields[i], ms)] + rest),
            },
        }
    }
}

/// Synthesizes the partial type's ordered field list, as
/// [`spec_partial_fields`] describes it.
pub fn partial_fields(fields: &Vec<FieldDef>) -> (r: Result<Vec<PartialField>, Diagnostic>)
    ensures
        match spec_partial_fields(fields@, 0) {
            Ok(pfs) => r is Ok && r->Ok_0.deep_view() == pfs,
            Err(e) => r is Err && r->Err_0 == e,
        },
{
    let n = fields.len();
    let mut out: Vec<PartialField> = Vec::new();
    let mut i: usize = 0;
    while i < n
        invariant
            n == fields@.len(),
            i <= n,
            spec_partial_fields(fields@, 0) == spec_prepend_fields(
                out.deep_view(),
                spec_partial_fields(fields@, i as int),
            ),
        decreases n - i,
    {
        let f = &fields[i];
        let metas = match field_partial_metas(f) {
            Err(e) => {
                return Err(e);
            },
            Ok(ms) => ms,
        };
        let name = match &f.name {
            Some(s) => Some(s.clone()),
            None => None,
        };
        let pf = PartialField { metas, vis: f.vis.clone(), name, ty: f.ty.clone() };
        let ghost before = out.deep_view();
        let ghost one = pf@;
        out.push(pf);
        proof {
            assert(out.deep_view() =~~= before + seq![one]);
            assert(before + (seq![one] + spec_partial_fields(fields@, i as int + 1)->Ok_0) =~~= (
            before + seq![one]) + spec_partial_fields(fields@, i as int + 1)->Ok_0);
        }
        i = i + 1;
    }
    proof {
        assert(out.deep_view() + spec_partial_fields(fields@, i as int)->Ok_0 =~~= out.deep_view());
    }
    Ok(out)
}

/// Shape preservation: a successful synthesis from the fields at index `i`
/// on yields exactly one partial field per base field, in the same order,
/// each with the base field's name, visibility and declared type. (The
/// renderer wraps exactly that type in the optional container; see
/// [`crate::render::spec_field_line`].)
pub proof fn lemma_shape_preservation(fields: Seq<FieldDef>, i: int)
    requires
        0 <= i <= fields.len(),
        spec_partial_fields(fields, i) is Ok,
    ensures
        spec_partial_fields(fields, i)->Ok_0.len() == fields.len() - i,
        forall|k: int|
            0 <= k < fields.len() - i ==> (#[trigger] spec_partial_fields(fields, i)->Ok_0[k]).name
                == spec_opt_str_view(fields[i + k].name) && spec_partial_fields(
                fields,
                i,
            )->Ok_0[k].vis == fields[i + k].vis@ && spec_partial_fields(fields, i)->Ok_0[k].ty
                == fields[i + k].ty@,
    decreases fields.len() - i,
{
    if i < fields.len() {
        lemma_shape_preservation(fields, i + 1);
        let ms = spec_field_metas_scan(fields[i].attrs@, 0)->Ok_0;
        let rest = spec_partial_fields(fields, i + 1)->Ok_0;
        let cur = spec_partial_fields(fields, i)->Ok_0;
        assert(cur == seq![spec_partial_field(fields[i], ms)] + rest);
        assert forall|k: int| 0 <= k < fields.len() - i implies (#[trigger] cur[k]).name
            == spec_opt_str_view(fields[i + k].name) && cur[k].vis == fields[i + k].vis@
            && cur[k].ty == fields[i + k].ty@ by {
            if k == 0 {
                assert(cur[0] == spec_partial_field(fields[i], ms));
            } else {
                assert(cur[k] == rest[k - 1]);
            }
        }
    }
}

} // verus!
