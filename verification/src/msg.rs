use vstd::prelude::*;

verus! {

/// An application-level network message: a routing key (resource key), a
/// payload, and the shared-memory state of that payload. The message is an
/// owned, movable unit: it is consumed (moved into a pipeline) on the success
/// path and discarded on every drop path.
#[derive(Clone, PartialEq, Debug)]
pub struct NetworkMessage {
    /// Routing metadata: the resource key the message is published under.
    pub key: String,
    /// The payload region.
    pub payload: Vec<u8>,
    /// Whether the payload can be re-homed into a shared-memory segment that
    /// the peer is able to read. The shared-memory mapper succeeds exactly on
    /// such messages.
    pub shm_eligible: bool,
    /// Whether the payload currently stands in its shared-memory
    /// representation (rewritten for zero-copy delivery).
    pub shm_mapped: bool,
}

impl NetworkMessage {
    /// A fresh message: its payload starts in its plain representation.
    pub fn new(key: String, payload: Vec<u8>, shm_eligible: bool) -> (m: Self)
        ensures
            m.key == key,
            m.payload == payload,
            m.shm_eligible == shm_eligible,
            !m.shm_mapped,
    {
        NetworkMessage { key, payload, shm_eligible, shm_mapped: false }
    }

    /// The same message with its payload re-homed into shared memory. The
    /// rewrite changes the payload's representation, not its content or the
    /// routing metadata.
    pub open spec fn spec_mapped(self) -> Self {
        NetworkMessage {
            key: self.key,
            payload: self.payload,
            shm_eligible: self.shm_eligible,
            shm_mapped: true,
        }
    }
}

} // verus!
