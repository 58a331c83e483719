//! Dispatch of storage-signing requests.
//!
//! A caller that needs access to object storage asks the catalog to sign a
//! storage request on its behalf. Three paths lead to the signer; they differ
//! only in how much of the catalog resource they name. This crate resolves a
//! path to its entry point, derives the scope of the request from the path
//! variables, and hands scope, payload, context and caller metadata to a
//! signing backend through one uniform call.

pub mod dispatcher;
pub mod route;
pub mod scope;
pub mod service;

pub use dispatcher::{dispatch, handle, normalize, relay, DispatchError, SignCall};
pub use route::{resolve, EntryPoint};
pub use scope::{Prefix, Scope, TabularId};
pub use service::{FailureKind, Service, SigningError};
