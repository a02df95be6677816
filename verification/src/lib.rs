//! An authentication checkpoint for a GraphQL gateway, in two halves.
//!
//! The gateway half reads the credential of a request, asks a sidecar about
//! it, and either lets the request continue or denies it with a GraphQL
//! error. The sidecar half verifies the credential as a signed token and
//! keeps a quota for each subject, and answers with a status code alone.
//!
//! Every decision of either half is a verified function of this crate; the
//! transport around them is left to the caller.

pub mod decision;
pub mod interceptor;
pub mod limiter;
pub mod token;
pub mod sidecar;
pub mod protocol;
