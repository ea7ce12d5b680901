//! A read-only client for a multi-chain identity/exposure registry.
//!
//! The registry binds a 20-byte account address to a 32-byte opaque handle
//! and, per chain, to a count of recorded exposure events. No backing store
//! is wired up yet: every lookup resolves to the unbound state, namely the
//! all-zero handle and an exposure count of zero. The contracts pin that
//! behaviour down exactly, over every chain identifier and every address.

use vstd::prelude::*;

verus! {

/// The all-zero 32-byte handle: the sentinel meaning that an address is
/// not bound in the registry.
pub open spec fn zero_handle() -> Seq<u8> {
    Seq::new(32, |i: int| 0u8)
}

/// The handle the registry resolves for `addr`. With no backing store bound,
/// every address resolves to the unbound sentinel.
pub open spec fn spec_handle_of(addr: Seq<u8>) -> Seq<u8> {
    zero_handle()
}

/// The exposure-event count the registry reports for `addr` on the chain
/// `chain_id`. With no backing store bound, no events are recorded anywhere.
pub open spec fn spec_exposure_reported(chain_id: u32, addr: Seq<u8>) -> u64 {
    0u64
}

/// Client of the TCKT identity/credential registry. It holds no state:
/// both lookups are pure queries, callable on any chain identifier and any
/// 20-byte address.
pub struct TCKT {}

impl TCKT {
    /// Resolves the 32-byte handle bound to `addr`, the all-zero sentinel
    /// when the address is unbound. Total: every 20-byte address is accepted.
    pub fn handle_of(&self, addr: [u8; 20]) -> (handle: [u8; 32])
        ensures
            handle@ == spec_handle_of(addr@),
            handle@.len() == 32,
            forall|i: int| 0 <= i < 32 ==> handle@[i] == 0u8,
    {
        let handle: [u8; 32] = [0u8; 32];
        proof {
            assert(handle@ =~= zero_handle());
        }
        handle
    }

    /// Reports how many exposure events are recorded for `addr` on the chain
    /// `chain_id`. Total: every 32-bit chain identifier and every 20-byte
    /// address is accepted.
    pub fn exposure_reported(&self, chain_id: u32, addr: [u8; 20]) -> (count: u64)
        ensures
            count == spec_exposure_reported(chain_id, addr@),
    {
        0u64
    }
}

/// Handle resolution is pure: any two results that the contract of
/// `handle_of` admits for the same address are the same sequence of bytes,
/// so repeated calls on one input cannot differ.
pub proof fn lemma_handle_of_pure(addr: Seq<u8>, h1: Seq<u8>, h2: Seq<u8>)
    requires
        h1 == spec_handle_of(addr),
        h2 == spec_handle_of(addr),
    ensures
        h1 == h2,
{
}

/// Exposure reporting is pure: any two counts that the contract of
/// `exposure_reported` admits for the same chain identifier and address are
/// equal, so repeated calls on one input cannot differ.
pub proof fn lemma_exposure_reported_pure(chain_id: u32, addr: Seq<u8>, c1: u64, c2: u64)
    requires
        c1 == spec_exposure_reported(chain_id, addr),
        c2 == spec_exposure_reported(chain_id, addr),
    ensures
        c1 == c2,
{
}

} // verus!
