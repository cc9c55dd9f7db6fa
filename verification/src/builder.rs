//! The layered builder: merge orchestration over attached sources.
//!
//! The builder owns an ordered list of sources. `try_build` queries each in
//! attach order, failing fast on a source error; checks each contribution
//! against the schema (shape, kinds) and against the secrecy policy (a source
//! without the capability may not set a secret field); folds accepted
//! contributions field-wise over the accumulator, later sources overriding
//! earlier ones; and finalizes, reporting every required field still unset.

use crate::error::{BuildError, BuildErrorView, SourceError, SourceErrorView};
use crate::partial::{
    empty_slots, merged, resolved_slots, spec_finalize, PartialValue, ResolvedConfig,
};
use crate::schema::{clone_path, FieldSpec, Schema};
use crate::source::{source_allows_secrets, source_partial, ConfigSource};
use crate::value::{kind_matches, spec_kind_matches, LeafValue};
use vstd::prelude::*;

verus! {

/// Whether a supplied slot is of the wrong kind for its field.
pub open spec fn slot_mismatch(slot: Option<LeafValue>, f: FieldSpec) -> bool {
    slot matches Some(v) && !spec_kind_matches(v, f.kind)
}

/// The first position at which the contribution supplies a scalar of the
/// wrong kind, or the field count where every supplied scalar fits.
pub open spec fn first_mismatch(
    p: Seq<Option<LeafValue>>,
    fields: Seq<FieldSpec>,
    j: int,
) -> int
    decreases fields.len() - j,
{
    if j < 0 || j >= fields.len() {
        fields.len() as int
    } else if slot_mismatch(p[j], fields[j]) {
        j
    } else {
        first_mismatch(p, fields, j + 1)
    }
}

/// Whether the contribution sets the field and the schema marks it secret.
pub open spec fn slot_secret(slot: Option<LeafValue>, f: FieldSpec) -> bool {
    slot is Some && f.secret
}

/// The first secret-marked position the contribution sets, or the field count
/// where it sets none.
pub open spec fn first_secret(p: Seq<Option<LeafValue>>, fields: Seq<FieldSpec>, j: int) -> int
    decreases fields.len() - j,
{
    if j < 0 || j >= fields.len() {
        fields.len() as int
    } else if slot_secret(p[j], fields[j]) {
        j
    } else {
        first_secret(p, fields, j + 1)
    }
}

proof fn lemma_first_mismatch_from(
    p: Seq<Option<LeafValue>>,
    fields: Seq<FieldSpec>,
    i: int,
    j: int,
)
    requires
        0 <= i <= j <= fields.len(),
        forall|k: int| i <= k < j ==> !slot_mismatch(p[k], fields[k]),
        j < fields.len() ==> slot_mismatch(p[j], fields[j]),
    ensures
        first_mismatch(p, fields, i) == if j < fields.len() {
            j
        } else {
            fields.len() as int
        },
    decreases j - i,
{
    if i < j {
        lemma_first_mismatch_from(p, fields, i + 1, j);
    }
}

proof fn lemma_first_secret_from(p: Seq<Option<LeafValue>>, fields: Seq<FieldSpec>, i: int, j: int)
    requires
        0 <= i <= j <= fields.len(),
        forall|k: int| i <= k < j ==> !slot_secret(p[k], fields[k]),
        j < fields.len() ==> slot_secret(p[j], fields[j]),
    ensures
        first_secret(p, fields, i) == if j < fields.len() {
            j
        } else {
            fields.len() as int
        },
    decreases j - i,
{
    if i < j {
        lemma_first_secret_from(p, fields, i + 1, j);
    }
}

proof fn lemma_first_secret_le(p: Seq<Option<LeafValue>>, fields: Seq<FieldSpec>, i: int, j: int)
    requires
        0 <= i <= j < fields.len(),
        slot_secret(p[j], fields[j]),
    ensures
        first_secret(p, fields, i) <= j,
    decreases j - i,
{
    if i < j && !slot_secret(p[i], fields[i]) {
        lemma_first_secret_le(p, fields, i + 1, j);
    }
}

/// What the build yields: each source queried in attach order, its
/// contribution checked and folded over the accumulator, then finalized.
pub open spec fn spec_build_from(
    acc: Seq<Option<LeafValue>>,
    sources: Seq<ConfigSource>,
    fields: Seq<FieldSpec>,
    i: int,
) -> Result<Seq<Option<LeafValue>>, BuildErrorView>
    decreases sources.len() - i,
{
    if i < 0 || i >= sources.len() {
        match spec_finalize(acc, fields) {
            Ok(v) => Ok(v),
            Err(m) => Err(BuildErrorView::MissingFields(m)),
        }
    } else {
        match source_partial(sources[i]) {
            Err(e) => Err(BuildErrorView::Source { index: i, error: e }),
            Ok(p) => if p.len() != fields.len() {
                Err(
                    BuildErrorView::Source {
                        index: i,
                        error: SourceErrorView::WrongShape {
                            expected: fields.len() as int,
                            got: p.len() as int,
                        },
                    },
                )
            } else if first_mismatch(p, fields, 0) < fields.len() {
                Err(
                    BuildErrorView::Source {
                        index: i,
                        error: SourceErrorView::TypeMismatch {
                            field: fields[first_mismatch(p, fields, 0)].path@,
                        },
                    },
                )
            } else if !source_allows_secrets(sources[i]) && first_secret(p, fields, 0)
                < fields.len() {
                Err(
                    BuildErrorView::SecretNotAllowed {
                        field: fields[first_secret(p, fields, 0)].path@,
                        source_index: i,
                    },
                )
            } else {
                spec_build_from(merged(acc, p), sources, fields, i + 1)
            },
        }
    }
}

/// The whole build, from the all-unset accumulator.
pub open spec fn spec_try_build(sources: Seq<ConfigSource>, fields: Seq<FieldSpec>) -> Result<
    Seq<Option<LeafValue>>,
    BuildErrorView,
> {
    spec_build_from(empty_slots(fields.len()), sources, fields, 0)
}

/// Whether the build accepts the source's contribution: it provides data of
/// the schema's shape and kinds, and it either may carry secrets or sets no
/// secret-marked field.
pub open spec fn source_accepted(s: ConfigSource, fields: Seq<FieldSpec>) -> bool {
    match source_partial(s) {
        Ok(p) => p.len() == fields.len() && first_mismatch(p, fields, 0) == fields.len() && (
        source_allows_secrets(s) || first_secret(p, fields, 0) == fields.len()),
        Err(_) => false,
    }
}

/// The accumulator after the first `i` sources were folded in attach order.
pub open spec fn acc_after(sources: Seq<ConfigSource>, fields: Seq<FieldSpec>, i: int) -> Seq<
    Option<LeafValue>,
>
    decreases i,
{
    if i <= 0 {
        empty_slots(fields.len())
    } else {
        merged(acc_after(sources, fields, i - 1), source_partial(sources[i - 1])->Ok_0)
    }
}

/// While every source so far was accepted, the build reaches position `i`
/// with the fold of their contributions as its accumulator.
pub proof fn lemma_build_progress(sources: Seq<ConfigSource>, fields: Seq<FieldSpec>, i: int)
    requires
        0 <= i <= sources.len(),
        forall|k: int| 0 <= k < i ==> source_accepted(#[trigger] sources[k], fields),
    ensures
        spec_try_build(sources, fields) == spec_build_from(
            acc_after(sources, fields, i),
            sources,
            fields,
            i,
        ),
    decreases i,
{
    if i > 0 {
        lemma_build_progress(sources, fields, i - 1);
        assert(source_accepted(sources[i - 1], fields));
    }
}

/// Secret gating, the refusing half: whatever sources stand before or after
/// it, a source that may not carry secrets and sets a secret-marked field
/// fails the build with `SecretNotAllowed`, naming that source's position and
/// the first secret field it set — provided the build reaches it, that is,
/// every earlier source was accepted, and its data is otherwise acceptable.
pub proof fn lemma_secret_gated(
    sources: Seq<ConfigSource>,
    fields: Seq<FieldSpec>,
    i: int,
    j: int,
)
    requires
        0 <= i < sources.len(),
        forall|k: int| 0 <= k < i ==> source_accepted(#[trigger] sources[k], fields),
        source_partial(sources[i]) is Ok,
        source_partial(sources[i])->Ok_0.len() == fields.len(),
        first_mismatch(source_partial(sources[i])->Ok_0, fields, 0) == fields.len(),
        !source_allows_secrets(sources[i]),
        0 <= j < fields.len(),
        slot_secret(source_partial(sources[i])->Ok_0[j], fields[j]),
    ensures
        spec_try_build(sources, fields) == Err::<Seq<Option<LeafValue>>, BuildErrorView>(
            BuildErrorView::SecretNotAllowed {
                field: fields[first_secret(source_partial(sources[i])->Ok_0, fields, 0)].path@,
                source_index: i,
            },
        ),
{
    lemma_build_progress(sources, fields, i);
    lemma_first_secret_le(source_partial(sources[i])->Ok_0, fields, 0, j);
}

/// Secret gating, the permitting half: when every source is accepted — in
/// particular, when each source that sets a secret-marked field may carry
/// secrets — the build fails with neither a source error nor
/// `SecretNotAllowed`; it goes through to finalization of the whole fold.
pub proof fn lemma_secret_capable_not_blocked(sources: Seq<ConfigSource>, fields: Seq<FieldSpec>)
    requires
        forall|k: int| 0 <= k < sources.len() ==> source_accepted(#[trigger] sources[k], fields),
    ensures
        spec_try_build(sources, fields) == (match spec_finalize(
            acc_after(sources, fields, sources.len() as int),
            fields,
        ) {
            Ok(v) => Ok::<Seq<Option<LeafValue>>, BuildErrorView>(v),
            Err(m) => Err::<Seq<Option<LeafValue>>, BuildErrorView>(
                BuildErrorView::MissingFields(m),
            ),
        }),
{
    lemma_build_progress(sources, fields, sources.len() as int);
}

proof fn lemma_two_sources_ok(sources: Seq<ConfigSource>, fields: Seq<FieldSpec>)
    requires
        sources.len() == 2,
    ensures
        spec_try_build(sources, fields) matches Ok(c) ==> {
            &&& source_partial(sources[0]) is Ok
            &&& source_partial(sources[1]) is Ok
            &&& source_partial(sources[0])->Ok_0.len() == fields.len()
            &&& source_partial(sources[1])->Ok_0.len() == fields.len()
            &&& c == resolved_slots(
                merged(
                    merged(empty_slots(fields.len()), source_partial(sources[0])->Ok_0),
                    source_partial(sources[1])->Ok_0,
                ),
                fields,
            )
        },
{
    let r = spec_try_build(sources, fields);
    let acc0 = empty_slots(fields.len());
    assert(r == spec_build_from(acc0, sources, fields, 0));
    if r is Ok {
        let p0 = source_partial(sources[0])->Ok_0;
        let acc1 = merged(acc0, p0);
        assert(r == spec_build_from(acc1, sources, fields, 1));
        let p1 = source_partial(sources[1])->Ok_0;
        let acc2 = merged(acc1, p1);
        assert(r == spec_build_from(acc2, sources, fields, 2));
    }
}

/// Override precedence: with sources attached in order A then B, a field that
/// B sets holds B's contribution in the built value, whatever A supplied.
pub proof fn lemma_override_precedence(
    sources: Seq<ConfigSource>,
    fields: Seq<FieldSpec>,
    i: int,
)
    requires
        sources.len() == 2,
        0 <= i < fields.len(),
        source_partial(sources[1]) is Ok,
        source_partial(sources[1])->Ok_0[i] is Some,
    ensures
        spec_try_build(sources, fields) matches Ok(c) ==> c[i] == source_partial(
            sources[1],
        )->Ok_0[i],
{
    lemma_two_sources_ok(sources, fields);
}

/// Partial survival: with sources attached in order A then B, where A sets
/// field `x` and B leaves `x` unset but sets `y`, the built value keeps A's
/// `x` beside B's `y` — merging is structural, not whole-subtree replacement.
pub proof fn lemma_partial_survival(
    sources: Seq<ConfigSource>,
    fields: Seq<FieldSpec>,
    x: int,
    y: int,
)
    requires
        sources.len() == 2,
        0 <= x < fields.len(),
        0 <= y < fields.len(),
        source_partial(sources[0]) is Ok,
        source_partial(sources[1]) is Ok,
        source_partial(sources[0])->Ok_0[x] is Some,
        source_partial(sources[1])->Ok_0[x] is None,
        source_partial(sources[1])->Ok_0[y] is Some,
    ensures
        spec_try_build(sources, fields) matches Ok(c) ==> {
            &&& c[x] == source_partial(sources[0])->Ok_0[x]
            &&& c[y] == source_partial(sources[1])->Ok_0[y]
        },
{
    lemma_two_sources_ok(sources, fields);
}

/// The layered builder: an ordered list of sources to fold, lowest priority
/// first, over a schema. Consumed by `try_build`.
#[derive(Debug)]
pub struct ConfigBuilder {
    pub schema: Schema,
    pub sources: Vec<ConfigSource>,
}

impl ConfigBuilder {
    /// A builder for the given schema with no sources attached.
    pub fn new(schema: Schema) -> (r: Self)
        ensures
            r.schema == schema,
            r.sources@ == Seq::<ConfigSource>::empty(),
    {
        ConfigBuilder { schema, sources: Vec::new() }
    }

    /// Attaches a source. Later-attached sources are higher priority: their
    /// set fields override whatever earlier sources supplied.
    pub fn override_with(self, source: ConfigSource) -> (r: Self)
        ensures
            r.schema == self.schema,
            r.sources@ == self.sources@.push(source),
    {
        let ConfigBuilder { schema, mut sources } = self;
        sources.push(source);
        ConfigBuilder { schema, sources }
    }

    /// Queries every source in attach order, folds their contributions, and
    /// finalizes: exactly [`spec_try_build`] of the attached sources.
    #[verifier::loop_isolation(false)]
    pub fn try_build(self) -> (r: Result<ResolvedConfig, BuildError>)
        ensures
            match r {
                Ok(c) => spec_try_build(self.sources@, self.schema@) == Ok::<
                    Seq<Option<LeafValue>>,
                    BuildErrorView,
                >(c@),
                Err(e) => spec_try_build(self.sources@, self.schema@) == Err::<
                    Seq<Option<LeafValue>>,
                    BuildErrorView,
                >(e@),
            },
    {
        let ConfigBuilder { schema, sources } = self;
        let n = schema.fields.len();
        let mut acc = PartialValue::empty(n);
        let mut i: usize = 0;
        while i < sources.len()
            invariant
                i <= sources@.len(),
                n == schema@.len(),
                acc@.len() == n,
                spec_build_from(acc@, sources@, schema@, i as int) == spec_try_build(
                    sources@,
                    schema@,
                ),
            decreases sources@.len() - i,
        {
            let src = &sources[i];
            match src.provide() {
                Err(e) => {
                    return Err(BuildError::Source { index: i, error: e });
                },
                Ok(p) => {
                    if p.len() != n {
                        return Err(
                            BuildError::Source {
                                index: i,
                                error: SourceError::WrongShape { expected: n, got: p.len() },
                            },
                        );
                    }
                    let mut j: usize = 0;
                    while j < n
                        invariant
                            j <= n,
                            n == schema@.len(),
                            p@.len() == n,
                            forall|k: int| 0 <= k < j ==> !slot_mismatch(p@[k], schema@[k]),
                        decreases n - j,
                    {
                        let bad = match p.slot(j) {
                            Some(v) => !kind_matches(v, schema.fields[j].kind),
                            None => false,
                        };
                        if bad {
                            proof {
                                lemma_first_mismatch_from(p@, schema@, 0, j as int);
                            }
                            return Err(
                                BuildError::Source {
                                    index: i,
                                    error: SourceError::TypeMismatch {
                                        field: clone_path(&schema.fields[j].path),
                                    },
                                },
                            );
                        }
                        j += 1;
                    }
                    proof {
                        lemma_first_mismatch_from(p@, schema@, 0, n as int);
                    }
                    if !src.allows_secrets() {
                        let mut j2: usize = 0;
                        while j2 < n
                            invariant
                                j2 <= n,
                                n == schema@.len(),
                                p@.len() == n,
                                forall|k: int| 0 <= k < j2 ==> !slot_secret(p@[k], schema@[k]),
                            decreases n - j2,
                        {
                            if p.slot(j2).is_some() && schema.fields[j2].secret {
                                proof {
                                    lemma_first_secret_from(p@, schema@, 0, j2 as int);
                                }
                                return Err(
                                    BuildError::SecretNotAllowed {
                                        field: clone_path(&schema.fields[j2].path),
                                        source_index: i,
                                    },
                                );
                            }
                            j2 += 1;
                        }
                        proof {
                            lemma_first_secret_from(p@, schema@, 0, n as int);
                        }
                    }
                    acc = acc.merge(p);
                },
            }
            i += 1;
        }
        match acc.finalize(&schema) {
            Ok(c) => Ok(c),
            Err(m) => Err(BuildError::MissingFields(m)),
        }
    }
}

} // verus!
