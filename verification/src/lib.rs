//! A library for copying a "global setting" resource between deployment
//! environments of a remote HTTP API.
//!
//! The library holds the verified logic: resolving environment names to base
//! URLs, building the OAuth2 token request, validating command-line flags,
//! deciding which settings a batch run copies, and the step-by-step transfer
//! protocol (fetch from source, create at destination if absent, then update).
//! The surrounding binary performs the HTTP calls and console I/O and feeds
//! their outcomes back into the protocol's step function.

pub mod auth;
pub mod cli;
pub mod envs;
pub mod schema;
pub mod strings;
pub mod transfer;
