//! Core of an IP tunnel whose peers are mesh endpoints named by opaque
//! 16-byte identifiers: the address mapper, the peer registry, the link
//! lifecycle and the packet routing decisions.

use vstd::prelude::*;

pub mod identity;
pub mod address;
pub mod config;
pub mod lifecycle;
pub mod policy;
pub mod registry;
pub mod router;

verus! {

/// Seconds between two announces of the local endpoint when the
/// configuration names no interval.
pub fn default_announce_freq_secs() -> (secs: u32)
    ensures
        secs == 1,
{
    1
}

} // verus!
