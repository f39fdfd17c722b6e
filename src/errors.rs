//! The failure taxonomy and the classification of backend errors.

use vstd::prelude::*;

verus! {

/// The closed set of failures that the library reports.
#[derive(Clone, Copy, Debug, PartialEq, Eq, Structural)]
pub enum ErrorKind {
    NotFound,
    AlreadyExists,
    PreconditionFailed,
    NotModified,
    NotSupported,
    PermissionDenied,
    Generic,
    /// A session was used after it reached a terminal state.
    InvalidSessionState,
    /// A session identifier was registered twice.
    DuplicateSession,
}

/// Which kind of failure a backend reported, as far as classification cares.
#[derive(Clone, Copy, Debug, PartialEq, Eq, Structural)]
pub enum BackendErrorVariant {
    NotFound,
    AlreadyExists,
    Precondition,
    NotModified,
    NotSupported,
    PermissionDenied,
    /// Any other backend failure (network, internal, configuration, ...).
    Other,
}

#[verifier::external_type_specification]
#[verifier::external_body]
pub struct ExObjectStoreError(object_store::Error);

impl ErrorKind {
    /// Whether this kind can come from a backend (as opposed to session misuse).
    pub open spec fn is_backend_kind(self) -> bool {
        !(self is InvalidSessionState) && !(self is DuplicateSession)
    }
}

/// The taxonomy class of a backend failure variant.
pub open spec fn classify_spec(v: BackendErrorVariant) -> ErrorKind {
    match v {
        BackendErrorVariant::NotFound => ErrorKind::NotFound,
        BackendErrorVariant::AlreadyExists => ErrorKind::AlreadyExists,
        BackendErrorVariant::Precondition => ErrorKind::PreconditionFailed,
        BackendErrorVariant::NotModified => ErrorKind::NotModified,
        BackendErrorVariant::NotSupported => ErrorKind::NotSupported,
        BackendErrorVariant::PermissionDenied => ErrorKind::PermissionDenied,
        BackendErrorVariant::Other => ErrorKind::Generic,
    }
}

/// Maps a backend failure variant to its class in the taxonomy.
pub fn classify(v: BackendErrorVariant) -> (r: ErrorKind)
    ensures
        r == classify_spec(v),
        r.is_backend_kind(),
{
    match v {
        BackendErrorVariant::NotFound => ErrorKind::NotFound,
        BackendErrorVariant::AlreadyExists => ErrorKind::AlreadyExists,
        BackendErrorVariant::Precondition => ErrorKind::PreconditionFailed,
        BackendErrorVariant::NotModified => ErrorKind::NotModified,
        BackendErrorVariant::NotSupported => ErrorKind::NotSupported,
        BackendErrorVariant::PermissionDenied => ErrorKind::PermissionDenied,
        BackendErrorVariant::Other => ErrorKind::Generic,
    }
}

/// Which variant of `object_store::Error` a backend error is, as far as
/// classification distinguishes them.
pub uninterp spec fn variant_of(error: object_store::Error) -> BackendErrorVariant;

/// Relies on the variants of `object_store::Error`: tells apart the ones that
/// classification distinguishes; every other variant is `Other`.
#[verifier::external_body]
fn backend_error_variant(error: &object_store::Error) -> (r: BackendErrorVariant)
    ensures
        r == variant_of(*error),
{
    match error {
        object_store::Error::NotFound { .. } => BackendErrorVariant::NotFound,
        object_store::Error::AlreadyExists { .. } => BackendErrorVariant::AlreadyExists,
        object_store::Error::Precondition { .. } => BackendErrorVariant::Precondition,
        object_store::Error::NotModified { .. } => BackendErrorVariant::NotModified,
        object_store::Error::NotSupported { .. } => BackendErrorVariant::NotSupported,
        object_store::Error::PermissionDenied { .. } => BackendErrorVariant::PermissionDenied,
        _ => BackendErrorVariant::Other,
    }
}

/// Classifies a backend error; never yields a session-misuse kind.
pub fn map_error(error: &object_store::Error) -> (r: ErrorKind)
    ensures
        r == classify_spec(variant_of(*error)),
        r.is_backend_kind(),
{
    let v = backend_error_variant(error);
    classify(v)
}

} // verus!
