use vstd::prelude::*;

verus! {

/// Saturating counter step: the counters are monotone and never wrap.
pub open spec fn sat_add(c: u64, n: u64) -> u64 {
    if c + n <= u64::MAX {
        (c + n) as u64
    } else {
        u64::MAX
    }
}

/// Per-transport-instance statistics: monotonically increasing counters for
/// messages admitted to a pipeline (`n_msgs`) and messages dropped
/// (`n_dropped`). Mutated only by the dispatch scheduler; read by
/// observability collaborators. No decrement, no reset.
#[derive(Clone, Copy, PartialEq, Eq, Structural, Debug)]
pub struct TransportStats {
    pub n_msgs: u64,
    pub n_dropped: u64,
}

impl TransportStats {
    pub fn new() -> (s: Self)
        ensures
            s.n_msgs == 0,
            s.n_dropped == 0,
    {
        TransportStats { n_msgs: 0, n_dropped: 0 }
    }

    /// Record `n` more messages admitted to a pipeline.
    pub fn inc_tx_n_msgs(&mut self, n: u64)
        ensures
            final(self).n_msgs == sat_add(old(self).n_msgs, n),
            final(self).n_dropped == old(self).n_dropped,
    {
        if self.n_msgs <= u64::MAX - n {
            self.n_msgs = self.n_msgs + n;
        } else {
            self.n_msgs = u64::MAX;
        }
    }

    /// Record `n` more messages dropped before or instead of admission.
    pub fn inc_tx_n_dropped(&mut self, n: u64)
        ensures
            final(self).n_dropped == sat_add(old(self).n_dropped, n),
            final(self).n_msgs == old(self).n_msgs,
    {
        if self.n_dropped <= u64::MAX - n {
            self.n_dropped = self.n_dropped + n;
        } else {
            self.n_dropped = u64::MAX;
        }
    }
}

} // verus!
