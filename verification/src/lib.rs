//! A gateway policy that answers requests for OAuth 2.0 protected resource
//! metadata with a fixed, operator-configured JSON document.
//!
//! [`policy`] holds the policy and what is proved of it. [`metadata`] and
//! [`response`] hold what is assumed of the crates that print the document and
//! assemble the response.

pub mod metadata;
pub mod policy;
pub mod response;

pub use policy::{OAuthProtectedResource, PolicyError, PolicyOutcome};
