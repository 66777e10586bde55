use crate::msg::NetworkMessage;
use vstd::prelude::*;

verus! {

/// Why a shared-memory conversion was refused. Non-fatal: the scheduler
/// treats every mapping failure as a plain drop.
#[derive(Clone, Copy, PartialEq, Eq, Structural, Debug)]
pub enum MapError {
    /// The payload cannot be re-homed into a segment the peer can read.
    NotShmEligible,
}

/// Shared-memory payload mapper: rewrite the message's payload into its
/// shared-memory-backed representation for zero-copy delivery, or report a
/// conversion failure. All-or-nothing: on failure the message is left exactly
/// as it was; no partial mutation is ever observable downstream. Operates on
/// local memory only and never blocks.
pub fn map_zmsg_to_partner(msg: &mut NetworkMessage) -> (r: Result<(), MapError>)
    ensures
        r is Ok <==> old(msg).shm_eligible,
        r is Ok ==> *final(msg) == old(msg).spec_mapped(),
        r is Err ==> *final(msg) == *old(msg),
{
    if msg.shm_eligible {
        msg.shm_mapped = true;
        Ok(())
    } else {
        Err(MapError::NotShmEligible)
    }
}

} // verus!
