//! Issues one-of-a-kind planet tokens on a ledger.
//!
//! Every address the issuance touches is derived from the caller's planet
//! identifier: `address` holds the derivation rules, `issuance` the ordered
//! steps that mint one unit and attach its descriptive record.

pub mod address;
pub mod issuance;
