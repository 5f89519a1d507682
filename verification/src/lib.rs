//! A registry of non-fungible tokens in which every account holds at most one
//! live token, administered by a set of custodians.

pub mod artifact;
pub mod identity;
pub mod laws;
pub mod metadata;
pub mod types;
pub mod model;
pub mod registry;
