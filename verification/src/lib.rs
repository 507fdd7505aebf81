//! Resolution of short-lived cloud credentials for named profiles.
//!
//! A profile names an identity-provider application and a role.  Resolving it
//! means locating the matching application link among the identity's
//! entitlements, obtaining a signed assertion, picking the authorized role,
//! exchanging the assertion for temporary credentials (with a single retry of
//! the provider exchange), and merging the result into a shared credential
//! store.  The network and terminal work is left to the caller: this crate
//! holds the decisions, each with a contract.

pub mod error;
pub mod profile;
pub mod role;
pub mod selector;
pub mod applications;
pub mod exchange;
pub mod namer;
pub mod orgs;
pub mod store;
pub mod resolver;
