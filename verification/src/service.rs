//! The one operation that every signing backend offers.

use vstd::prelude::*;
use crate::scope::{prefix_view, Prefix, TabularId};

verus! {

/// The kinds of failure that a signing backend tells apart.
#[derive(Debug, Clone, Copy, PartialEq, Eq, Hash)]
pub enum FailureKind {
    /// The resource that the request names is unknown.
    NotFound,
    /// The caller may not have the storage request signed.
    PermissionDenied,
    /// The backend, or a signing provider behind it, failed.
    Internal,
}

/// A failure of a signing backend.
#[derive(Debug, Clone, PartialEq, Eq, Hash)]
pub struct SigningError {
    pub kind: FailureKind,
    pub message: String,
}

/// A signing backend.
///
/// `S` is the shared context that runs through every request. The payload
/// to sign, the signed payload and the caller's metadata are the backend's
/// own types: whoever dispatches to it never looks inside them.
pub trait Service<S> {
    /// What the storage request to sign is described by.
    type Request;

    /// What the signed storage request is described by.
    type Response;

    /// Who the caller is, as an earlier layer established it.
    type Metadata;

    /// The outcomes that this backend may give for a call. An implementation
    /// says here as much or as little of itself as it wants known; one that
    /// says nothing admits every outcome.
    open spec fn admits(
        prefix: Option<Seq<char>>,
        tabular_id: Option<TabularId>,
        request: Self::Request,
        state: S,
        request_metadata: Self::Metadata,
        outcome: Result<Self::Response, SigningError>,
    ) -> bool {
        true
    }

    /// Signs a storage request.
    ///
    /// `prefix` and `tabular_id` say what the request is scoped to. Either
    /// may be missing, and an implementation may count on neither.
    fn sign(
        prefix: Option<Prefix>,
        tabular_id: Option<TabularId>,
        request: Self::Request,
        state: S,
        request_metadata: Self::Metadata,
    ) -> (outcome: Result<Self::Response, SigningError>)
        ensures
            Self::admits(
                prefix_view(prefix),
                tabular_id,
                request,
                state,
                request_metadata,
                outcome,
            ),
    ;
}

} // verus!
