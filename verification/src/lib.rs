//! Invoice-backed lending: a registry of tokenized invoices and a pool that
//! lends against them.
//!
//! The library holds the core state machines — invoice issuance and the loan
//! lifecycle — as verified code over plain values. Facts that only the host
//! environment can establish (the authenticated caller, the current ledger
//! time, token balances, whether a signature verifies) enter as arguments;
//! the token transfers an operation calls for are returned to the caller,
//! which performs them against the ledger asset.

pub mod attest;
pub mod invoice;
pub mod pool;

use vstd::prelude::*;

verus! {

/// A principal identity: who may authorize a state-changing call.
/// The host maps its native account representation onto these.
pub type AccountId = u64;

} // verus!
