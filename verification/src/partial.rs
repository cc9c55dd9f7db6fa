//! Partial values and their field-wise merge.
//!
//! A partial value mirrors a configuration type with one slot per leaf field
//! of its schema, each slot unset or set to a scalar. Merging is field-wise:
//! the overriding value wins a slot only where it is itself set, so an unset
//! slot in the override never clobbers earlier data. Finalization fills unset
//! slots from the schema's defaults and reports every required field that is
//! still unset.

use crate::schema::{clone_path, FieldPath, FieldSpec, Schema};
use crate::value::LeafValue;
use vstd::prelude::*;

verus! {

/// A partial contribution towards a configuration value: one slot per leaf
/// field of the schema, in the schema's field order.
#[derive(Debug, PartialEq)]
pub struct PartialValue {
    slots: Vec<Option<LeafValue>>,
}

impl View for PartialValue {
    type V = Seq<Option<LeafValue>>;

    closed spec fn view(&self) -> Seq<Option<LeafValue>> {
        self.slots@
    }
}

/// The all-unset partial value of a given width: the identity of `merged`.
pub open spec fn empty_slots(n: nat) -> Seq<Option<LeafValue>> {
    Seq::new(n, |i: int| None::<LeafValue>)
}

/// The field-wise merge: the override `b` wins a slot only where it is set.
pub open spec fn merged(a: Seq<Option<LeafValue>>, b: Seq<Option<LeafValue>>) -> Seq<
    Option<LeafValue>,
> {
    Seq::new(a.len(), |i: int| if b[i] is Some { b[i] } else { a[i] })
}

/// Merging the all-unset partial value with `p` yields `p`, on either side.
pub proof fn lemma_merge_identity(p: Seq<Option<LeafValue>>)
    ensures
        merged(empty_slots(p.len()), p) == p,
        merged(p, empty_slots(p.len())) == p,
{
    assert(merged(empty_slots(p.len()), p) =~= p);
    assert(merged(p, empty_slots(p.len())) =~= p);
}

/// Merging a chain of updates in order associates: folding sources one by one
/// over the accumulator equals merging the later pair first.
pub proof fn lemma_merge_associative(
    a: Seq<Option<LeafValue>>,
    b: Seq<Option<LeafValue>>,
    c: Seq<Option<LeafValue>>,
)
    requires
        a.len() == b.len(),
        b.len() == c.len(),
    ensures
        merged(merged(a, b), c) == merged(a, merged(b, c)),
{
    assert(merged(merged(a, b), c) =~= merged(a, merged(b, c)));
}

/// Whether finalization must report the field as missing: required, unset, and
/// without a default.
pub open spec fn field_missing(slot: Option<LeafValue>, f: FieldSpec) -> bool {
    f.required && slot is None && f.default is None
}

/// The paths of every missing field from position `j` on, in schema order.
pub open spec fn missing_from(
    slots: Seq<Option<LeafValue>>,
    fields: Seq<FieldSpec>,
    j: int,
) -> Seq<Seq<String>>
    decreases fields.len() - j,
{
    if j < 0 || j >= fields.len() {
        Seq::empty()
    } else if field_missing(slots[j], fields[j]) {
        seq![fields[j].path@] + missing_from(slots, fields, j + 1)
    } else {
        missing_from(slots, fields, j + 1)
    }
}

/// The finalized slots: each unset slot falls back to the schema's default.
pub open spec fn resolved_slots(
    slots: Seq<Option<LeafValue>>,
    fields: Seq<FieldSpec>,
) -> Seq<Option<LeafValue>> {
    Seq::new(fields.len(), |i: int| if slots[i] is Some { slots[i] } else { fields[i].default })
}

/// What finalization yields: the resolved slots where nothing is missing, else
/// the paths of every missing field.
pub open spec fn spec_finalize(
    slots: Seq<Option<LeafValue>>,
    fields: Seq<FieldSpec>,
) -> Result<Seq<Option<LeafValue>>, Seq<Seq<String>>> {
    if missing_from(slots, fields, 0).len() == 0 {
        Ok(resolved_slots(slots, fields))
    } else {
        Err(missing_from(slots, fields, 0))
    }
}

/// The views of a list of field paths.
pub open spec fn paths_view(m: Seq<FieldPath>) -> Seq<Seq<String>> {
    m.map_values(|p: FieldPath| p@)
}

/// Every missing field is reported: finalization's error holds the path of
/// each required field that is unset and has no default, not only the first.
pub proof fn lemma_missing_reported(
    slots: Seq<Option<LeafValue>>,
    fields: Seq<FieldSpec>,
    j: int,
)
    requires
        0 <= j < fields.len(),
        field_missing(slots[j], fields[j]),
    ensures
        missing_from(slots, fields, 0).contains(fields[j].path@),
{
    lemma_missing_reported_from(slots, fields, 0, j);
}

proof fn lemma_missing_reported_from(
    slots: Seq<Option<LeafValue>>,
    fields: Seq<FieldSpec>,
    i: int,
    j: int,
)
    requires
        0 <= i <= j < fields.len(),
        field_missing(slots[j], fields[j]),
    ensures
        missing_from(slots, fields, i).contains(fields[j].path@),
    decreases j - i,
{
    if i == j {
        assert(missing_from(slots, fields, i)[0] == fields[j].path@);
    } else {
        lemma_missing_reported_from(slots, fields, i + 1, j);
        let rest = missing_from(slots, fields, i + 1);
        let k = choose|k: int| 0 <= k < rest.len() && rest[k] == fields[j].path@;
        if field_missing(slots[i], fields[i]) {
            assert(missing_from(slots, fields, i)[k + 1] == fields[j].path@);
        }
    }
}

/// What finalization owes: where it succeeds, every required field of the
/// result is set, directly or from its default.
pub proof fn lemma_finalize_required_set(slots: Seq<Option<LeafValue>>, fields: Seq<FieldSpec>)
    requires
        slots.len() == fields.len(),
    ensures
        spec_finalize(slots, fields) matches Ok(out) ==> forall|j: int|
            0 <= j < fields.len() && fields[j].required ==> (#[trigger] out[j]) is Some,
{
    if spec_finalize(slots, fields) is Ok {
        let out = spec_finalize(slots, fields)->Ok_0;
        assert forall|j: int| 0 <= j < fields.len() && fields[j].required implies (
        #[trigger] out[j]) is Some by {
            if slots[j] is None && fields[j].default is None {
                lemma_missing_reported(slots, fields, j);
            }
        }
    }
}

/// A finalized configuration value: every slot resolved, required fields set;
/// an optional field without a default may remain absent.
#[derive(Debug, PartialEq)]
pub struct ResolvedConfig {
    pub values: Vec<Option<LeafValue>>,
}

impl View for ResolvedConfig {
    type V = Seq<Option<LeafValue>>;

    open spec fn view(&self) -> Seq<Option<LeafValue>> {
        self.values@
    }
}

impl ResolvedConfig {
    /// The resolved value of the leaf field at `index` in the schema's order.
    pub fn value(&self, index: usize) -> (r: &Option<LeafValue>)
        requires
            index < self@.len(),
        ensures
            *r == self@[index as int],
    {
        &self.values[index]
    }
}

impl Clone for PartialValue {
    fn clone(&self) -> (r: Self)
        ensures
            r@ == self@,
    {
        let mut out: Vec<Option<LeafValue>> = Vec::new();
        let mut i: usize = 0;
        while i < self.slots.len()
            invariant
                i <= self.slots.len(),
                out@.len() == i,
                forall|k: int| 0 <= k < i ==> out@[k] == self.slots@[k],
            decreases self.slots.len() - i,
        {
            let v = match &self.slots[i] {
                Some(x) => Some(x.clone()),
                None => None,
            };
            out.push(v);
            i += 1;
        }
        proof {
            assert(out@ =~= self.slots@);
        }
        PartialValue { slots: out }
    }
}

impl PartialValue {
    /// The all-unset partial value for a schema of `n` leaf fields.
    pub fn empty(n: usize) -> (r: Self)
        ensures
            r@ == empty_slots(n as nat),
    {
        let mut slots: Vec<Option<LeafValue>> = Vec::new();
        let mut i: usize = 0;
        while i < n
            invariant
                i <= n,
                slots@.len() == i,
                forall|k: int| 0 <= k < i ==> slots@[k] is None,
            decreases n - i,
        {
            slots.push(None);
            i += 1;
        }
        proof {
            assert(slots@ =~= empty_slots(n as nat));
        }
        PartialValue { slots }
    }

    /// How many slots the partial value has.
    pub fn len(&self) -> (n: usize)
        ensures
            n == self@.len(),
    {
        self.slots.len()
    }

    /// The slot at `index`, in the schema's field order.
    pub fn slot(&self, index: usize) -> (r: &Option<LeafValue>)
        requires
            index < self@.len(),
        ensures
            *r == self@[index as int],
    {
        &self.slots[index]
    }

    /// Sets the slot at `index`, replacing whatever it held.
    pub fn set_slot(&mut self, index: usize, v: LeafValue)
        requires
            index < old(self)@.len(),
        ensures
            final(self)@ == old(self)@.update(index as int, Some(v)),
    {
        self.slots[index] = Some(v);
    }

    /// Merges `other` over `self`, field-wise: a slot `other` sets wins, a slot
    /// it leaves unset keeps `self`'s value.
    pub fn merge(self, other: PartialValue) -> (r: PartialValue)
        requires
            self@.len() == other@.len(),
        ensures
            r@ == merged(self@, other@),
    {
        let n = self.slots.len();
        let mut out: Vec<Option<LeafValue>> = Vec::new();
        let mut i: usize = 0;
        while i < n
            invariant
                i <= n,
                n == self.slots@.len(),
                self.slots@.len() == other.slots@.len(),
                out@.len() == i,
                forall|k: int| 0 <= k < i ==> out@[k] == merged(self@, other@)[k],
            decreases n - i,
        {
            let v = match &other.slots[i] {
                Some(x) => Some(x.clone()),
                None => match &self.slots[i] {
                    Some(y) => Some(y.clone()),
                    None => None,
                },
            };
            out.push(v);
            i += 1;
        }
        proof {
            assert(out@ =~= merged(self@, other@));
        }
        PartialValue { slots: out }
    }

    /// Finalizes the accumulated partial value against the schema: fills unset
    /// slots from defaults, and fails with the paths of every required field
    /// that is still unset.
    pub fn finalize(self, schema: &Schema) -> (r: Result<ResolvedConfig, Vec<FieldPath>>)
        requires
            self@.len() == schema@.len(),
        ensures
            match r {
                Ok(c) => spec_finalize(self@, schema@) == Ok::<
                    Seq<Option<LeafValue>>,
                    Seq<Seq<String>>,
                >(c@),
                Err(m) => spec_finalize(self@, schema@) == Err::<
                    Seq<Option<LeafValue>>,
                    Seq<Seq<String>>,
                >(paths_view(m@)),
            },
    {
        let n = schema.fields.len();
        let mut missing: Vec<FieldPath> = Vec::new();
        let mut j: usize = 0;
        while j < n
            invariant
                j <= n,
                n == schema@.len(),
                self@.len() == n,
                paths_view(missing@) + missing_from(self@, schema@, j as int) == missing_from(
                    self@,
                    schema@,
                    0,
                ),
            decreases n - j,
        {
            let f = &schema.fields[j];
            if f.required && self.slots[j].is_none() && f.default.is_none() {
                let ghost before = missing@;
                missing.push(clone_path(&f.path));
                proof {
                    assert(paths_view(missing@) =~= paths_view(before).push(
                        schema@[j as int].path@,
                    ));
                    assert(paths_view(missing@) + missing_from(self@, schema@, j + 1) =~= paths_view(
                        before,
                    ) + missing_from(self@, schema@, j as int));
                }
            }
            j += 1;
        }
        proof {
            assert(paths_view(missing@) + missing_from(self@, schema@, n as int) =~= paths_view(
                missing@,
            ));
        }
        if missing.len() > 0 {
            return Err(missing);
        }
        let mut values: Vec<Option<LeafValue>> = Vec::new();
        let mut i: usize = 0;
        while i < n
            invariant
                i <= n,
                n == schema@.len(),
                self@.len() == n,
                values@.len() == i,
                forall|k: int| 0 <= k < i ==> values@[k] == resolved_slots(self@, schema@)[k],
            decreases n - i,
        {
            let v = match &self.slots[i] {
                Some(x) => Some(x.clone()),
                None => match &schema.fields[i].default {
                    Some(d) => Some(d.clone()),
                    None => None,
                },
            };
            values.push(v);
            i += 1;
        }
        proof {
            assert(values@ =~= resolved_slots(self@, schema@));
        }
        Ok(ResolvedConfig { values })
    }
}

} // verus!
