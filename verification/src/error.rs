//! The errors a build can end with.
//!
//! All three kinds are terminal to the build: a source that could not produce
//! valid data, a secret field supplied by a source without the capability, and
//! required fields still unset after every source was applied.

use crate::schema::FieldPath;
use vstd::prelude::*;

verus! {

/// A source could not produce valid data for the requested schema.
#[derive(Debug, PartialEq, Eq)]
pub enum SourceError {
    /// The source's backing data was malformed; the message is the source's own.
    Malformed { message: String },
    /// The source supplied a partial value of the wrong width for the schema.
    WrongShape { expected: usize, got: usize },
    /// The source supplied a scalar of the wrong kind for the named field.
    TypeMismatch { field: FieldPath },
}

/// The mathematical shape of a [`SourceError`], with paths as sequences.
pub ghost enum SourceErrorView {
    Malformed { message: String },
    WrongShape { expected: int, got: int },
    TypeMismatch { field: Seq<String> },
}

impl View for SourceError {
    type V = SourceErrorView;

    open spec fn view(&self) -> SourceErrorView {
        match self {
            SourceError::Malformed { message } => SourceErrorView::Malformed {
                message: *message,
            },
            SourceError::WrongShape { expected, got } => SourceErrorView::WrongShape {
                expected: *expected as int,
                got: *got as int,
            },
            SourceError::TypeMismatch { field } => SourceErrorView::TypeMismatch {
                field: field@,
            },
        }
    }
}

impl Clone for SourceError {
    fn clone(&self) -> (r: Self)
        ensures
            r@ == self@,
    {
        match self {
            SourceError::Malformed { message } => SourceError::Malformed {
                message: message.clone(),
            },
            SourceError::WrongShape { expected, got } => SourceError::WrongShape {
                expected: *expected,
                got: *got,
            },
            SourceError::TypeMismatch { field } => SourceError::TypeMismatch {
                field: crate::schema::clone_path(field),
            },
        }
    }
}

/// Why a build failed.
#[derive(Debug, PartialEq, Eq)]
pub enum BuildError {
    /// The source at `index` (in attach order) failed; its error is surfaced
    /// verbatim.
    Source { index: usize, error: SourceError },
    /// The source at `source_index` supplied a value for the secret field at
    /// `field` without being allowed to carry secrets.
    SecretNotAllowed { field: FieldPath, source_index: usize },
    /// After every source was applied, each listed required field was unset
    /// and had no default; the list holds every such field, in schema order.
    MissingFields(Vec<FieldPath>),
}

/// The mathematical shape of a [`BuildError`], with paths as sequences.
pub ghost enum BuildErrorView {
    Source { index: int, error: SourceErrorView },
    SecretNotAllowed { field: Seq<String>, source_index: int },
    MissingFields(Seq<Seq<String>>),
}

impl View for BuildError {
    type V = BuildErrorView;

    open spec fn view(&self) -> BuildErrorView {
        match self {
            BuildError::Source { index, error } => BuildErrorView::Source {
                index: *index as int,
                error: error@,
            },
            BuildError::SecretNotAllowed { field, source_index } => {
                BuildErrorView::SecretNotAllowed {
                    field: field@,
                    source_index: *source_index as int,
                }
            },
            BuildError::MissingFields(m) => BuildErrorView::MissingFields(
                crate::partial::paths_view(m@),
            ),
        }
    }
}

} // verus!
