//! Verified core of an in-game economy engine.
//!
//! The crate holds the decision logic of the engine: calendar arithmetic for
//! the environment factor, the hot in-memory trade window with its capacity
//! rules, the transfer regulator's audit decisions, the persistence-layer
//! bookkeeping (log counters, writer batching, initialization codes).
//! Floating-point valuation and the actual I/O are left to the embedding
//! host, which feeds this core plain values and acts on its decisions.

use vstd::prelude::*;

pub mod calendar;
pub mod context;
pub mod persistence;
pub mod regulator;
pub mod window;

verus! {

/// Version handshake value the host checks before using the boundary.
pub fn ecobridge_abi_version() -> (v: u32)
    ensures
        v == 0x0008_0700u32,
{
    0x0008_0700
}

} // verus!
