//! Promotional codes whose eligibility is a tree of restrictions: date
//! windows, age ranges, weather conditions, and the `@and` / `@or`
//! combinators over them.
//!
//! Every type that comes from outside is first read into a shadow structure
//! without invariants and then converted, with every rule checked, into its
//! validated counterpart. Each validated type has a well-formedness predicate
//! that its constructors establish.

pub mod validate_type;
pub mod promocode;
pub mod promocode_request;
pub mod weather;
pub mod promocode_response;
pub mod db;
pub mod service;
pub mod laws;
