//! The schema of a configuration type: its leaf fields.
//!
//! A configuration type is described by the flat list of its leaf fields, each
//! addressed by its nested path (the segments of the dotted path from the root
//! to the leaf). Nested objects therefore need no recursive representation:
//! merging and completeness checking are field-wise over the leaves.

use vstd::prelude::*;

verus! {

/// The nested path of a leaf field, as its segments: the field `b` of the
/// nested object `a` has the path `["a", "b"]`.
pub type FieldPath = Vec<String>;

/// One leaf field of a configuration type.
#[derive(Debug)]
pub struct FieldSpec {
    /// Where the leaf stands in the nested structure.
    pub path: FieldPath,
    /// The scalar kind the field expects.
    pub kind: crate::value::LeafKind,
    /// Whether finalization fails when the field is unset and has no default.
    pub required: bool,
    /// Whether only a secret-capable source may supply the field.
    pub secret: bool,
    /// The value the field takes when no source sets it.
    pub default: Option<crate::value::LeafValue>,
}

/// The schema of a configuration type: its leaf fields, in a fixed order.
/// A partial value for the type has one slot per field, in the same order.
#[derive(Debug)]
pub struct Schema {
    pub fields: Vec<FieldSpec>,
}

impl View for Schema {
    type V = Seq<FieldSpec>;

    open spec fn view(&self) -> Seq<FieldSpec> {
        self.fields@
    }
}

impl Schema {
    /// How many leaf fields the described type has.
    pub fn len(&self) -> (n: usize)
        ensures
            n == self@.len(),
    {
        self.fields.len()
    }
}

/// Copies a field path, segment by segment.
pub fn clone_path(p: &FieldPath) -> (r: FieldPath)
    ensures
        r@ == p@,
{
    let mut out: Vec<String> = Vec::new();
    let mut i: usize = 0;
    while i < p.len()
        invariant
            i <= p.len(),
            out@.len() == i,
            forall|k: int| 0 <= k < i ==> out@[k] == p@[k],
        decreases p.len() - i,
    {
        out.push(p[i].clone());
        i += 1;
    }
    proof {
        assert(out@ =~= p@);
    }
    out
}

} // verus!
