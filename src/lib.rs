//! Command correlation and claim-request handling for an issuer that drives a
//! callback-based native credential library.
//!
//! `registry` holds the correlation table between command handles and their
//! pending results, `issuance` the decisions of one issuance round trip, and
//! `claim_request` the claim-request message model with its parser.
pub mod claim_request;
pub mod issuance;
pub mod json;
pub mod registry;
