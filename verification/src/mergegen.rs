//! The merge-body synthesizer: from the ordered field list, with each
//! field's strategy directive resolved, to the sequence of conditional
//! field-update operations that implement the merge.
//!
//! Every field resolves to exactly one strategy: `Overwrite` unless a
//! strategy directive names `merge`. When a field carries the directive more
//! than once, or one directive names several strategies, the last named
//! strategy wins; a strategy name other than the two valid ones is an error
//! at that name's position.

use crate::diag::DiagKind;
use crate::diag::Diagnostic;
use crate::model::AnnArgs;
use crate::model::Annotation;
use crate::model::FieldDef;
use crate::model::Span;
use crate::scan::lemma_piece_bounds_wf;
use crate::scan::piece_bounds;
use crate::scan::range_eq;
use crate::scan::scan_ok;
use crate::scan::split_top_level;
use crate::scan::str_eq;
use crate::scan::trim_range;
use crate::scan::trimmed;
use vstd::prelude::*;

verus! {

/// How one field combines its base value with a present partial value.
#[derive(Clone, Copy, PartialEq, Eq, Debug)]
pub enum MergeStrategy {
    /// Replace the base field's value with the partial field's value.
    Overwrite,
    /// Delegate to the field type's own in-place merge operation.
    Merge,
}

/// One conditional field-update operation of the generated merge body.
#[derive(Debug)]
pub struct MergeOp {
    /// The field the operation updates.
    pub name: String,
    /// The resolved strategy for that field.
    pub strategy: MergeStrategy,
}

/// The mathematical content of one merge operation.
pub ghost struct SpecMergeOp {
    pub name: Seq<char>,
    pub strategy: MergeStrategy,
}

impl View for MergeOp {
    type V = SpecMergeOp;

    open spec fn view(&self) -> SpecMergeOp {
        SpecMergeOp { name: self.name@, strategy: self.strategy }
    }
}

impl DeepView for MergeOp {
    type V = SpecMergeOp;

    open spec fn deep_view(&self) -> SpecMergeOp {
        self.view()
    }
}

/// Walks a strategy directive's pieces from index `k` on, carrying the last
/// strategy named so far. Only the last piece may be empty (a trailing
/// comma); a piece that is neither `overwrite` nor `merge` is an error at
/// that piece's position.
pub open spec fn spec_strategy_pieces(
    s: Seq<char>,
    base: int,
    attr_span: Span,
    k: int,
    acc: Option<MergeStrategy>,
) -> Result<Option<MergeStrategy>, Diagnostic>
    decreases piece_bounds(s).len() - k,
{
    let bs = piece_bounds(s);
    if k < 0 || k >= bs.len() {
        Ok(acc)
    } else {
        let t = trimmed(s, bs[k]);
        if t.0 >= t.1 {
            if k == bs.len() - 1 {
                spec_strategy_pieces(s, base, attr_span, k + 1, acc)
            } else {
                Err(Diagnostic { kind: DiagKind::MalformedStrategyArgs, span: attr_span })
            }
        } else if s.subrange(t.0, t.1) == "overwrite"@ {
            spec_strategy_pieces(s, base, attr_span, k + 1, Some(MergeStrategy::Overwrite))
        } else if s.subrange(t.0, t.1) == "merge"@ {
            spec_strategy_pieces(s, base, attr_span, k + 1, Some(MergeStrategy::Merge))
        } else {
            Err(
                Diagnostic {
                    kind: DiagKind::UnknownStrategy,
                    span: Span { lo: (base + t.0) as usize, hi: (base + t.1) as usize },
                },
            )
        }
    }
}

/// What parsing a strategy directive's argument text yields: the last
/// strategy named, `None` when the list is empty, or the diagnostic.
pub open spec fn spec_parse_strategy_args(s: Seq<char>, base: int, attr_span: Span) -> Result<
    Option<MergeStrategy>,
    Diagnostic,
> {
    if !scan_ok(s) {
        Err(Diagnostic { kind: DiagKind::MalformedStrategyArgs, span: attr_span })
    } else {
        spec_strategy_pieces(s, base, attr_span, 0, None)
    }
}

/// Parses a strategy directive's argument text, as
/// [`spec_parse_strategy_args`] describes it.
pub fn parse_strategy_args(args: &str, args_lo: usize, attr_span: Span) -> (r: Result<
    Option<MergeStrategy>,
    Diagnostic,
>)
    requires
        args_lo + args@.len() <= usize::MAX,
    ensures
        match spec_parse_strategy_args(args@, args_lo as int, attr_span) {
            Ok(st) => r is Ok && r->Ok_0 == st,
            Err(e) => r is Err && r->Err_0 == e,
        },
{
    let pieces = match split_top_level(args) {
        None => {
            return Err(Diagnostic { kind: DiagKind::MalformedStrategyArgs, span: attr_span });
        },
        Some(ps) => ps,
    };
    proof {
        lemma_piece_bounds_wf(args@);
    }
    let n = pieces.len();
    let mut acc: Option<MergeStrategy> = None;
    let mut k: usize = 0;
    while k < n
        invariant
            n == pieces@.len(),
            k <= n,
            args_lo + args@.len() <= usize::MAX,
            scan_ok(args@),
            pieces@.len() == piece_bounds(args@).len(),
            forall|j: int|
                0 <= j < pieces@.len() ==> ((#[trigger] pieces@[j]).0 as int, pieces@[j].1 as int)
                    == piece_bounds(args@)[j],
            forall|j: int|
                0 <= j < piece_bounds(args@).len() ==> 0 <= (#[trigger] piece_bounds(args@)[j]).0
                    <= piece_bounds(args@)[j].1 <= args@.len(),
            spec_parse_strategy_args(args@, args_lo as int, attr_span) == spec_strategy_pieces(
                args@,
                args_lo as int,
                attr_span,
                k as int,
                acc,
            ),
        decreases n - k,
    {
        let (plo, phi) = pieces[k];
        let (tlo, thi) = trim_range(args, plo, phi);
        if tlo >= thi {
            if k + 1 != n {
                return Err(
                    Diagnostic { kind: DiagKind::MalformedStrategyArgs, span: attr_span },
                );
            }
        } else if range_eq(args, tlo, thi, "overwrite") {
            acc = Some(MergeStrategy::Overwrite);
        } else if range_eq(args, tlo, thi, "merge") {
            acc = Some(MergeStrategy::Merge);
        } else {
            return Err(
                Diagnostic {
                    kind: DiagKind::UnknownStrategy,
                    span: Span { lo: args_lo + tlo, hi: args_lo + thi },
                },
            );
        }
        k = k + 1;
    }
    Ok(acc)
}

/// Walks a field's annotations from index `i` on, resolving the field's
/// strategy: the last strategy named by a strategy directive wins, and a
/// field without one keeps `cur`.
pub open spec fn spec_field_strategy_scan(
    attrs: Seq<Annotation>,
    i: int,
    cur: MergeStrategy,
) -> Result<MergeStrategy, Diagnostic>
    decreases attrs.len() - i,
{
    if i < 0 || i >= attrs.len() {
        Ok(cur)
    } else {
        let a = attrs[i];
        if a.path@ == "strategy"@ {
            match a.args {
                AnnArgs::List(text) => {
                    match spec_parse_strategy_args(text@, a.args_lo as int, a.span) {
                        Ok(None) => spec_field_strategy_scan(attrs, i + 1, cur),
                        Ok(Some(st)) => spec_field_strategy_scan(attrs, i + 1, st),
                        Err(e) => Err(e),
                    }
                },
                _ => Err(Diagnostic { kind: DiagKind::MalformedStrategyArgs, span: a.span }),
            }
        } else {
            spec_field_strategy_scan(attrs, i + 1, cur)
        }
    }
}

/// Resolves one field's strategy, as [`spec_field_strategy_scan`] describes
/// it; absence of a strategy directive yields the default, `Overwrite`.
pub fn resolve_strategy(field: &FieldDef) -> (r: Result<MergeStrategy, Diagnostic>)
    requires
        field.wf(),
    ensures
        match spec_field_strategy_scan(field.attrs@, 0, MergeStrategy::Overwrite) {
            Ok(st) => r is Ok && r->Ok_0 == st,
            Err(e) => r is Err && r->Err_0 == e,
        },
{
    let n = field.attrs.len();
    let mut cur = MergeStrategy::Overwrite;
    let mut i: usize = 0;
    while i < n
        invariant
            field.wf(),
            n == field.attrs@.len(),
            i <= n,
            spec_field_strategy_scan(field.attrs@, 0, MergeStrategy::Overwrite)
                == spec_field_strategy_scan(field.attrs@, i as int, cur),
        decreases n - i,
    {
        let a = &field.attrs[i];
        if str_eq(a.path.as_str(), "strategy") {
            match &a.args {
                AnnArgs::List(text) => {
                    proof {
                        assert(field.attrs@[i as int].wf());
                    }
                    match parse_strategy_args(text.as_str(), a.args_lo, a.span) {
                        Ok(None) => {},
                        Ok(Some(st)) => {
                            cur = st;
                        },
                        Err(e) => {
                            return Err(e);
                        },
                    }
                },
                AnnArgs::Bare => {
                    return Err(
                        Diagnostic { kind: DiagKind::MalformedStrategyArgs, span: a.span },
                    );
                },
                AnnArgs::Value(_) => {
                    return Err(
                        Diagnostic { kind: DiagKind::MalformedStrategyArgs, span: a.span },
                    );
                },
            }
        }
        i = i + 1;
    }
    Ok(cur)
}

/// Prepends already-synthesized operations to the remaining result.
pub open spec fn spec_prepend_ops(v: Seq<SpecMergeOp>, r: Result<Seq<SpecMergeOp>, Diagnostic>) -> Result<
    Seq<SpecMergeOp>,
    Diagnostic,
> {
    match r {
        Ok(rest) => Ok(v + rest),
        Err(e) => Err(e),
    }
}

/// What synthesizing the merge body from the fields at index `i` on yields:
/// one operation per field, in field declaration order, or the first
/// field's diagnostic. A field without a name is rejected here; it is
/// reachable only through malformed internal construction, so the check is
/// defensive.
pub open spec fn spec_merge_ops(fields: Seq<FieldDef>, i: int) -> Result<
    Seq<SpecMergeOp>,
    Diagnostic,
>
    decreases fields.len() - i,
{
    if i < 0 || i >= fields.len() {
        Ok(Seq::empty())
    } else {
        match spec_field_strategy_scan(fields[i].attrs@, 0, MergeStrategy::Overwrite) {
            Err(e) => Err(e),
            Ok(st) => match fields[i].name {
                None => Err(Diagnostic { kind: DiagKind::UnnamedField, span: fields[i].span }),
                Some(n) => match spec_merge_ops(fields, i + 1) {
                    Err(e) => Err(e),
                    Ok(rest) => Ok(seq![SpecMergeOp { name: n@, strategy: st }] + rest),
                },
            },
        }
    }
}

/// Synthesizes the merge body's ordered operation list, as
/// [`spec_merge_ops`] describes it.
pub fn merge_in_place(fields: &Vec<FieldDef>) -> (r: Result<Vec<MergeOp>, Diagnostic>)
    requires
        forall|i: int| 0 <= i < fields@.len() ==> (#[trigger] fields@[i]).wf(),
    ensures
        match spec_merge_ops(fields@, 0) {
            Ok(ops) => r is Ok && r->Ok_0.deep_view() == ops,
            Err(e) => r is Err && r->Err_0 == e,
        },
{
    let n = fields.len();
    let mut out: Vec<MergeOp> = Vec::new();
    let mut i: usize = 0;
    while i < n
        invariant
            forall|j: int| 0 <= j < fields@.len() ==> (#[trigger] fields@[j]).wf(),
            n == fields@.len(),
            i <= n,
            spec_merge_ops(fields@, 0) == spec_prepend_ops(
                out.deep_view(),
                spec_merge_ops(fields@, i as int),
            ),
        decreases n - i,
    {
        let f = &fields[i];
        let st = match resolve_strategy(f) {
            Err(e) => {
                return Err(e);
            },
            Ok(st) => st,
        };
        let name = match &f.name {
            None => {
                return Err(Diagnostic { kind: DiagKind::UnnamedField, span: f.span });
            },
            Some(s) => s.clone(),
        };
        let op = MergeOp { name, strategy: st };
        let ghost before = out.deep_view();
        let ghost one = op@;
        out.push(op);
        proof {
            assert(out.deep_view() =~~= before + seq![one]);
            assert(before + (seq![one] + spec_merge_ops(fields@, i as int + 1)->Ok_0) =~~= (before
                + seq![one]) + spec_merge_ops(fields@, i as int + 1)->Ok_0);
        }
        i = i + 1;
    }
    proof {
        assert(out.deep_view() + spec_merge_ops(fields@, i as int)->Ok_0 =~~= out.deep_view());
    }
    Ok(out)
}

/// One operation per field: a successful synthesis from the fields at index
/// `i` on yields exactly one operation per base field, in field declaration
/// order, each naming its field.
pub proof fn lemma_ops_shape(fields: Seq<FieldDef>, i: int)
    requires
        0 <= i <= fields.len(),
        spec_merge_ops(fields, i) is Ok,
    ensures
        spec_merge_ops(fields, i)->Ok_0.len() == fields.len() - i,
        forall|k: int|
            0 <= k < fields.len() - i ==> fields[i + k].name is Some && (
            #[trigger] spec_merge_ops(fields, i)->Ok_0[k]).name == fields[i + k].name->0@,
    decreases fields.len() - i,
{
    if i < fields.len() {
        lemma_ops_shape(fields, i + 1);
        let st = spec_field_strategy_scan(fields[i].attrs@, 0, MergeStrategy::Overwrite)->Ok_0;
        let rest = spec_merge_ops(fields, i + 1)->Ok_0;
        let cur = spec_merge_ops(fields, i)->Ok_0;
        assert(cur == seq![SpecMergeOp { name: fields[i].name->0@, strategy: st }] + rest);
        assert forall|k: int| 0 <= k < fields.len() - i implies fields[i + k].name is Some && (
        #[trigger] cur[k]).name == fields[i + k].name->0@ by {
            if k > 0 {
                assert(cur[k] == rest[k - 1]);
            }
        }
    }
}

/// A field without a strategy directive keeps the strategy the scan started
/// with: absence of the directive is equivalent to the default.
pub proof fn lemma_strategy_scan_default(attrs: Seq<Annotation>, i: int, cur: MergeStrategy)
    requires
        forall|j: int| 0 <= j < attrs.len() ==> (#[trigger] attrs[j]).path@ != "strategy"@,
    ensures
        spec_field_strategy_scan(attrs, i, cur) == Ok::<MergeStrategy, Diagnostic>(cur),
    decreases attrs.len() - i,
{
    if 0 <= i && i < attrs.len() {
        lemma_strategy_scan_default(attrs, i + 1, cur);
    }
}

/// Default strategy: when no field carries a strategy directive and every
/// field is named, synthesis succeeds and resolves every field to the
/// overwrite strategy, one operation per field in order.
pub proof fn lemma_merge_ops_default(fields: Seq<FieldDef>, i: int)
    requires
        0 <= i <= fields.len(),
        forall|j: int| 0 <= j < fields.len() ==> (#[trigger] fields[j]).name is Some,
        forall|j: int, k: int|
            0 <= j < fields.len() && 0 <= k < fields[j].attrs@.len() ==> (#[trigger] fields[j].attrs@[k]).path@
                != "strategy"@,
    ensures
        spec_merge_ops(fields, i) is Ok,
        spec_merge_ops(fields, i)->Ok_0.len() == fields.len() - i,
        forall|k: int|
            0 <= k < fields.len() - i ==> (#[trigger] spec_merge_ops(fields, i)->Ok_0[k]).strategy
                == MergeStrategy::Overwrite && spec_merge_ops(fields, i)->Ok_0[k].name == fields[i
                + k].name->0@,
    decreases fields.len() - i,
{
    if i < fields.len() {
        assert forall|k: int|
            0 <= k < fields[i].attrs@.len() implies (#[trigger] fields[i].attrs@[k]).path@
            != "strategy"@ by {
            assert(fields[i].attrs@[k] == fields[i].attrs@[k]);
        }
        lemma_strategy_scan_default(fields[i].attrs@, 0, MergeStrategy::Overwrite);
        lemma_merge_ops_default(fields, i + 1);
        let rest = spec_merge_ops(fields, i + 1)->Ok_0;
        let cur = spec_merge_ops(fields, i)->Ok_0;
        assert(cur == seq![
            SpecMergeOp { name: fields[i].name->0@, strategy: MergeStrategy::Overwrite },
        ] + rest);
        assert forall|k: int| 0 <= k < fields.len() - i implies (#[trigger] cur[k]).strategy
            == MergeStrategy::Overwrite && cur[k].name == fields[i + k].name->0@ by {
            if k > 0 {
                assert(cur[k] == rest[k - 1]);
            }
        }
    }
}

} // verus!
