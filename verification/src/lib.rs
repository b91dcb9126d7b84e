//! Querying historical Stellar ledger data.
//!
//! The library resolves a ledger selector to a span of sequence numbers,
//! maps each sequence to its object-store key, normalises records fetched
//! from the store or from the fallback RPC into one decoded batch shape,
//! filters the transactions of a batch by address, contract or function
//! name, and builds the simulated contract invocations used for balance
//! and price queries.

use vstd::prelude::*;

pub mod aggregate;
pub mod args;
pub mod config;
pub mod fetch;
pub mod filters;
pub mod invoke;
pub mod jsonio;
pub mod model;
pub mod numstr;
pub mod range;
pub mod strops;
pub mod textio;
pub mod xdrio;

verus! {

} // verus!
