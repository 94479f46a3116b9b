//! What the generated merge bodies do, stated over a small value domain.
//!
//! A record value is the ordered sequence of its fields' values; a partial
//! value carries one optional value per field. [`apply_merge_ops`] executes
//! a synthesized operation list over such values exactly the way the
//! generated code does: a present value overwrites the base field or is
//! delegated to the field value's own merge, an absent value leaves the
//! base field untouched. The lemmas here state the merge laws over
//! [`spec_merge_record`].

use crate::Merge;
use crate::mergegen::MergeOp;
use crate::mergegen::MergeStrategy;
use crate::mergegen::SpecMergeOp;
use vstd::prelude::*;
use vstd::string::StringExecFns;

verus! {

/// A field value: a scalar, a text, or a list of texts.
#[derive(Clone, PartialEq, Eq, Debug)]
pub enum Value {
    Int(u64),
    Text(String),
    TextList(Vec<String>),
}

/// The mathematical content of a field value.
pub ghost enum SpecValue {
    Int(u64),
    Text(Seq<char>),
    TextList(Seq<Seq<char>>),
}

impl View for Value {
    type V = SpecValue;

    open spec fn view(&self) -> SpecValue {
        match self {
            Value::Int(n) => SpecValue::Int(*n),
            Value::Text(s) => SpecValue::Text(s@),
            Value::TextList(v) => SpecValue::TextList(v.deep_view()),
        }
    }
}

impl DeepView for Value {
    type V = SpecValue;

    open spec fn deep_view(&self) -> SpecValue {
        self.view()
    }
}

/// When one value provides the merge capability against another: both are
/// texts, or both are lists of texts.
pub open spec fn spec_mergeable(b: SpecValue, p: SpecValue) -> bool {
    match (b, p) {
        (SpecValue::Text(_), SpecValue::Text(_)) => true,
        (SpecValue::TextList(_), SpecValue::TextList(_)) => true,
        _ => false,
    }
}

/// The value the merge capability produces: texts concatenate and lists
/// append, the partial's items after the base's, in order.
pub open spec fn spec_value_merged(b: SpecValue, p: SpecValue) -> SpecValue {
    match (b, p) {
        (SpecValue::Text(a), SpecValue::Text(c)) => SpecValue::Text(a + c),
        (SpecValue::TextList(a), SpecValue::TextList(c)) => SpecValue::TextList(a + c),
        _ => b,
    }
}

/// Implements [`Merge`] for field values, the way a generated merge body
/// uses a field type's own merge capability: texts concatenate and lists of
/// texts append.
impl Merge<Value> for Value {
    open spec fn merge_req(self, other: Value) -> bool {
        spec_mergeable(self@, other@)
    }

    open spec fn merges_to(self, other: Value, merged: Self) -> bool {
        merged@ == spec_value_merged(self@, other@)
    }

    fn merge_in_place(&mut self, other: Value) {
        let mut taken = Value::Int(0);
        core::mem::swap(self, &mut taken);
        let merged = match (taken, other) {
            (Value::Text(mut s), Value::Text(o)) => {
                s.append(o.as_str());
                Value::Text(s)
            },
            (Value::TextList(mut v), Value::TextList(o)) => {
                let mut items = o;
                v.append(&mut items);
                proof {
                    assert(v.deep_view() =~~= (*old(self))->TextList_0.deep_view()
                        + other->TextList_0.deep_view());
                }
                Value::TextList(v)
            },
            (b, _) => b,
        };
        *self = merged;
    }
}

/// The record that merging yields: per field, an absent partial value keeps
/// the base value, a present one overwrites it or is merged into it
/// according to that field's operation.
pub open spec fn spec_merge_record(
    ops: Seq<SpecMergeOp>,
    base: Seq<SpecValue>,
    partial: Seq<Option<SpecValue>>,
) -> Seq<SpecValue> {
    Seq::new(
        base.len(),
        |i: int|
            if i < ops.len() && i < partial.len() {
                match partial[i] {
                    None => base[i],
                    Some(p) => match ops[i].strategy {
                        MergeStrategy::Overwrite => p,
                        MergeStrategy::Merge => spec_value_merged(base[i], p),
                    },
                }
            } else {
                base[i]
            },
    )
}

/// Executes a synthesized operation list over a record value and a partial
/// value, one conditional field update per field in declaration order, as
/// the generated merge body does.
pub fn apply_merge_ops(ops: &Vec<MergeOp>, base: Vec<Value>, partial: Vec<Option<Value>>) -> (r:
    Vec<Value>)
    requires
        base@.len() == ops@.len(),
        partial@.len() == ops@.len(),
        forall|i: int|
            0 <= i < ops@.len() ==> ((#[trigger] ops@[i]).strategy is Merge && partial@[i] is Some
                ==> spec_mergeable(base@[i]@, partial@[i]->0@)),
    ensures
        r.deep_view() == spec_merge_record(ops.deep_view(), base.deep_view(), partial.deep_view()),
{
    let ghost bvals: Seq<Value> = base@;
    let ghost pvals: Seq<Option<Value>> = partial@;
    let ghost goal: Seq<SpecValue> = spec_merge_record(
        ops.deep_view(),
        base.deep_view(),
        partial.deep_view(),
    );
    let n = ops.len();
    let mut base = base;
    let mut partial = partial;
    let mut out: Vec<Value> = Vec::new();
    let mut i: usize = 0;
    while i < n
        invariant
            n == ops@.len(),
            i <= n,
            bvals.len() == n,
            pvals.len() == n,
            goal == spec_merge_record(ops.deep_view(), bvals.map_values(|v: Value| v@), pvals.map_values(|o: Option<Value>| o.deep_view())),
            forall|j: int|
                0 <= j < n ==> ((#[trigger] ops@[j]).strategy is Merge && pvals[j] is Some
                    ==> spec_mergeable(bvals[j]@, pvals[j]->0@)),
            base@ == bvals.subrange(i as int, n as int),
            partial@ == pvals.subrange(i as int, n as int),
            out.deep_view().len() == i as int,
            forall|j: int| 0 <= j < i as int ==> #[trigger] out.deep_view()[j] == goal[j],
        decreases n - i,
    {
        let b = base.remove(0);
        let p = partial.remove(0);
        proof {
            assert(b == bvals[i as int]);
            assert(p == pvals[i as int]);
            assert(base@ =~= bvals.subrange(i as int + 1, n as int));
            assert(partial@ =~= pvals.subrange(i as int + 1, n as int));
        }
        let v = match p {
            None => b,
            Some(pv) => {
                match ops[i].strategy {
                    MergeStrategy::Overwrite => pv,
                    MergeStrategy::Merge => {
                        let mut bb = b;
                        bb.merge_in_place(pv);
                        bb
                    },
                }
            },
        };
        let ghost before = out.deep_view();
        proof {
            assert(goal[i as int] == v@);
        }
        out.push(v);
        proof {
            assert(out.deep_view() =~~= before.push(v@));
        }
        i = i + 1;
    }
    proof {
        assert(out.deep_view() =~~= goal);
    }
    out
}

/// Default strategy: when every field's operation is an overwrite and the
/// partial value has every field present, merging replaces every base
/// field's value with the partial's.
pub proof fn lemma_default_strategy(
    ops: Seq<SpecMergeOp>,
    base: Seq<SpecValue>,
    partial: Seq<Option<SpecValue>>,
)
    requires
        base.len() == ops.len(),
        partial.len() == ops.len(),
        forall|i: int|
            0 <= i < ops.len() ==> (#[trigger] ops[i]).strategy == MergeStrategy::Overwrite,
        forall|i: int| 0 <= i < partial.len() ==> (#[trigger] partial[i]) is Some,
    ensures
        spec_merge_record(ops, base, partial).len() == base.len(),
        forall|i: int|
            0 <= i < base.len() ==> #[trigger] spec_merge_record(ops, base, partial)[i]
                == partial[i]->0,
{
}

/// Selective update: when the partial's value for a field is absent, that
/// base field is unchanged after merging, independently of every other
/// field.
pub proof fn lemma_selective_update(
    ops: Seq<SpecMergeOp>,
    base: Seq<SpecValue>,
    partial: Seq<Option<SpecValue>>,
    i: int,
)
    requires
        base.len() == ops.len(),
        partial.len() == ops.len(),
        0 <= i < base.len(),
        partial[i] is None,
    ensures
        spec_merge_record(ops, base, partial)[i] == base[i],
{
}

/// Merge delegation: for a field whose operation carries the merge strategy
/// and whose partial value is present, merging yields the field type's own
/// merge of the two values, not a replacement.
pub proof fn lemma_merge_delegation(
    ops: Seq<SpecMergeOp>,
    base: Seq<SpecValue>,
    partial: Seq<Option<SpecValue>>,
    i: int,
)
    requires
        base.len() == ops.len(),
        partial.len() == ops.len(),
        0 <= i < base.len(),
        ops[i].strategy == MergeStrategy::Merge,
        partial[i] is Some,
    ensures
        spec_merge_record(ops, base, partial)[i] == spec_value_merged(base[i], partial[i]->0),
{
}

/// Idempotence on an empty partial: merging any base value with a partial
/// value whose every field is absent yields the base value itself.
pub proof fn lemma_empty_partial_identity(
    ops: Seq<SpecMergeOp>,
    base: Seq<SpecValue>,
    partial: Seq<Option<SpecValue>>,
)
    requires
        base.len() == ops.len(),
        partial.len() == ops.len(),
        forall|i: int| 0 <= i < partial.len() ==> (#[trigger] partial[i]) is None,
    ensures
        spec_merge_record(ops, base, partial) == base,
{
    assert(spec_merge_record(ops, base, partial) =~= base);
}

} // verus!
