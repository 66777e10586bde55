use crate::msg::NetworkMessage;
use crate::stats::sat_add;
use vstd::prelude::*;

verus! {

/// A link's outbound queue, seen through its admission contract alone:
/// `push_network_message` takes ownership of a message and returns whether it
/// was admitted to the queue (not delivered — delivery is a further step that
/// belongs to the transport below). A closed or draining pipeline admits
/// nothing. `n_calls` counts push invocations, so that observers can tell "the
/// push was never issued" from "the push was issued and rejected".
#[derive(Clone, PartialEq, Debug)]
pub struct Pipeline {
    /// Whether the queue still admits messages; `false` once the pipeline is
    /// closed or shutting down.
    pub open_for_push: bool,
    /// Messages admitted so far, in admission order.
    pub queued: Vec<NetworkMessage>,
    /// How many times a push was issued on this queue, admitted or not.
    pub n_calls: u64,
}

impl Pipeline {
    pub fn new(open_for_push: bool) -> (p: Self)
        ensures
            p.open_for_push == open_for_push,
            p.queued@ == Seq::<NetworkMessage>::empty(),
            p.n_calls == 0,
    {
        Pipeline { open_for_push, queued: Vec::new(), n_calls: 0 }
    }

    /// Enqueue a message: admit it iff the pipeline is open. A rejected
    /// message is consumed and discarded (fire-and-forget semantics).
    pub fn push_network_message(&mut self, msg: NetworkMessage) -> (admitted: bool)
        ensures
            admitted == old(self).open_for_push,
            final(self).open_for_push == old(self).open_for_push,
            final(self).n_calls == sat_add(old(self).n_calls, 1),
            admitted ==> final(self).queued@ == old(self).queued@.push(msg),
            !admitted ==> final(self).queued@ == old(self).queued@,
    {
        if self.n_calls < u64::MAX {
            self.n_calls = self.n_calls + 1;
        }
        if self.open_for_push {
            self.queued.push(msg);
            true
        } else {
            false
        }
    }
}

} // verus!
