//! Sources: the providers of partial values.
//!
//! A source, when queried, yields a partial value for the requested schema —
//! possibly empty, possibly complete — and declares whether it may carry
//! secret fields. The known kinds are a tagged enum: a literal partial value
//! held directly (also the natural test fixture), and the already-fetched
//! outcome of an external collaborator such as an environment-variable or
//! file reader, which hands its data over as plain values.

use crate::error::{SourceError, SourceErrorView};
use crate::partial::PartialValue;
use crate::value::LeafValue;
use vstd::prelude::*;

verus! {

/// One attached source of configuration data.
#[derive(Debug)]
pub enum ConfigSource {
    /// A partial value given directly by the caller.
    Literal { partial: PartialValue, allow_secrets: bool },
    /// The outcome an external collaborator reported when it was read: either
    /// the partial value it assembled, or its own error.
    External { outcome: Result<PartialValue, SourceError>, allow_secrets: bool },
}

/// Whether the source is permitted to supply secret-marked fields.
pub open spec fn source_allows_secrets(s: ConfigSource) -> bool {
    match s {
        ConfigSource::Literal { allow_secrets, .. } => allow_secrets,
        ConfigSource::External { allow_secrets, .. } => allow_secrets,
    }
}

/// What querying the source yields.
pub open spec fn source_partial(s: ConfigSource) -> Result<Seq<Option<LeafValue>>, SourceErrorView> {
    match s {
        ConfigSource::Literal { partial, .. } => Ok(partial@),
        ConfigSource::External { outcome, .. } => match outcome {
            Ok(p) => Ok(p@),
            Err(e) => Err(e@),
        },
    }
}

impl ConfigSource {
    /// Whether the source is permitted to supply secret-marked fields.
    pub fn allows_secrets(&self) -> (b: bool)
        ensures
            b == source_allows_secrets(*self),
    {
        match self {
            ConfigSource::Literal { allow_secrets, .. } => *allow_secrets,
            ConfigSource::External { allow_secrets, .. } => *allow_secrets,
        }
    }

    /// Queries the source for whatever data it can supply: a partial value
    /// that may be entirely, partially, or not at all populated, or the
    /// source's own error. Finding nothing is not an error.
    pub fn provide(&self) -> (r: Result<PartialValue, SourceError>)
        ensures
            match r {
                Ok(p) => source_partial(*self) == Ok::<Seq<Option<LeafValue>>, SourceErrorView>(
                    p@,
                ),
                Err(e) => source_partial(*self) == Err::<Seq<Option<LeafValue>>, SourceErrorView>(
                    e@,
                ),
            },
    {
        match self {
            ConfigSource::Literal { partial, .. } => Ok(partial.clone()),
            ConfigSource::External { outcome, .. } => match outcome {
                Ok(p) => Ok(p.clone()),
                Err(e) => Err(e.clone()),
            },
        }
    }
}

} // verus!
