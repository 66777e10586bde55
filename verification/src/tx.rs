use crate::msg::NetworkMessage;
use crate::pipeline::Pipeline;
use crate::shm::map_zmsg_to_partner;
use crate::stats::sat_add;
use crate::stats::TransportStats;
use vstd::prelude::*;

verus! {

/// An independently owned reference to a pipeline in the transport's pipeline
/// store. A handle copied out of the link state slot stays usable after the
/// slot is rewritten: removing or replacing the link does not invalidate an
/// in-flight push through a previously taken handle.
#[derive(Clone, Copy, PartialEq, Eq, Structural, Debug)]
pub struct PipelineHandle {
    pub id: usize,
}

/// One established multicast link, as the scheduler sees it: it optionally
/// carries a handle to its outbound pipeline. A link may stand in the slot
/// without a pipeline, e.g. while draining.
#[derive(Clone, Copy, PartialEq, Eq, Debug)]
pub struct Link {
    pub pipeline: Option<PipelineHandle>,
}

/// How one dispatch attempt resolved. Every failure collapses to a boolean
/// "dropped" at the public boundary; the variants keep the reason stateable
/// for diagnostics.
#[derive(Clone, Copy, PartialEq, Eq, Structural, Debug)]
pub enum DispatchOutcome {
    /// The message was admitted to the link's pipeline.
    Sent,
    /// No link is configured in the link state slot.
    DroppedNoLink,
    /// A link is present but carries no pipeline.
    DroppedNoPipeline,
    /// Shared-memory conversion was enabled and refused the message.
    DroppedMappingFailed,
    /// The pipeline was reached and declined the message (closed).
    DroppedPushRejected,
}

/// The pipeline store after one push of `m` on entry `i`: that entry saw one
/// more call, kept its admission policy, and gained `m` at the tail iff it
/// admitted it; every other entry is untouched.
pub open spec fn pushed_one(
    pre: Seq<Pipeline>,
    post: Seq<Pipeline>,
    i: int,
    m: NetworkMessage,
    admitted: bool,
) -> bool {
    &&& 0 <= i < pre.len()
    &&& post.len() == pre.len()
    &&& forall|j: int| 0 <= j < pre.len() && j != i ==> post[j] == pre[j]
    &&& post[i].open_for_push == pre[i].open_for_push
    &&& post[i].n_calls == sat_add(pre[i].n_calls, 1)
    &&& post[i].queued@ == if admitted {
        pre[i].queued@.push(m)
    } else {
        pre[i].queued@
    }
}

/// The outbound side of a multicast transport endpoint: the link state slot
/// (written by the link lifecycle manager, read by the scheduler), the store
/// of pipelines that handles point into, the shared-memory capability flag
/// resolved once at construction, and the statistics counters.
pub struct TransportMulticastInner {
    /// The link state slot: at most one current link is visible at any
    /// instant. The scheduler only reads it; `set_link` is the lifecycle
    /// manager's exclusive write.
    pub link: Option<Link>,
    /// Backing store of pipelines. An entry outlives any rewrite of the link
    /// state slot, so a handle taken from the slot keeps working after the
    /// link is replaced or removed.
    pub pipelines: Vec<Pipeline>,
    /// Whether shared-memory payload conversion is enabled for this
    /// transport instance.
    pub shm_enabled: bool,
    /// Delivery/drop counters, mutated exactly once per schedule call.
    pub stats: TransportStats,
}

impl TransportMulticastInner {
    /// Every handle reachable from the link state slot points into the store.
    pub open spec fn wf(self) -> bool {
        match self.link {
            Some(l) => match l.pipeline {
                Some(h) => h.id < self.pipelines@.len(),
                None => true,
            },
            None => true,
        }
    }

    /// The pipeline handle the slot currently offers, if any.
    pub open spec fn spec_slot_handle(self) -> Option<PipelineHandle> {
        match self.link {
            Some(l) => l.pipeline,
            None => None,
        }
    }

    /// How link dispatch alone resolves: the slot and the pipeline it points
    /// to decide admission; the message plays no part.
    pub open spec fn spec_link_outcome(self) -> DispatchOutcome {
        match self.link {
            None => DispatchOutcome::DroppedNoLink,
            Some(l) => match l.pipeline {
                None => DispatchOutcome::DroppedNoPipeline,
                Some(h) => if self.pipelines@[h.id as int].open_for_push {
                    DispatchOutcome::Sent
                } else {
                    DispatchOutcome::DroppedPushRejected
                },
            },
        }
    }

    /// How a whole schedule call resolves for `msg`: a failing shared-memory
    /// conversion short-circuits; otherwise the link decides.
    pub open spec fn spec_outcome(self, msg: NetworkMessage) -> DispatchOutcome {
        if self.shm_enabled && !msg.shm_eligible {
            DispatchOutcome::DroppedMappingFailed
        } else {
            self.spec_link_outcome()
        }
    }

    /// The message a pipeline receives: converted iff shared memory is on.
    pub open spec fn spec_effective_msg(self, msg: NetworkMessage) -> NetworkMessage {
        if self.shm_enabled {
            msg.spec_mapped()
        } else {
            msg
        }
    }

    /// Everything one `schedule` call does, relating the transport before the
    /// call (`pre`) to the transport after it (`post`): the admission result,
    /// that the slot and the capability flag are untouched, that exactly one
    /// counter moves by one, and that a push reaches exactly the pipeline the
    /// slot offered — or, on the short-circuiting drops, no pipeline at all.
    pub open spec fn schedule_effect(
        pre: Self,
        post: Self,
        msg: NetworkMessage,
        admitted: bool,
    ) -> bool {
        let oc = pre.spec_outcome(msg);
        &&& admitted == (oc is Sent)
        &&& post.link == pre.link
        &&& post.shm_enabled == pre.shm_enabled
        &&& if admitted {
            post.stats.n_msgs == sat_add(pre.stats.n_msgs, 1) && post.stats.n_dropped
                == pre.stats.n_dropped
        } else {
            post.stats.n_dropped == sat_add(pre.stats.n_dropped, 1) && post.stats.n_msgs
                == pre.stats.n_msgs
        }
        &&& if oc is Sent || oc is DroppedPushRejected {
            pushed_one(
                pre.pipelines@,
                post.pipelines@,
                pre.spec_slot_handle()->Some_0.id as int,
                pre.spec_effective_msg(msg),
                admitted,
            )
        } else {
            post.pipelines@ == pre.pipelines@
        }
    }

    /// A transport with an empty slot, no pipelines and zero counters.
    pub fn new(shm_enabled: bool) -> (t: Self)
        ensures
            t.wf(),
            t.link is None,
            t.pipelines@ == Seq::<Pipeline>::empty(),
            t.shm_enabled == shm_enabled,
            t.stats.n_msgs == 0,
            t.stats.n_dropped == 0,
    {
        TransportMulticastInner {
            link: None,
            pipelines: Vec::new(),
            shm_enabled,
            stats: TransportStats::new(),
        }
    }

    /// Install a fresh pipeline in the store and hand back its handle. This
    /// is the lifecycle manager's side of link setup; existing entries and
    /// the slot are untouched.
    pub fn new_pipeline(&mut self, open_for_push: bool) -> (h: PipelineHandle)
        ensures
            old(self).wf() ==> final(self).wf(),
            h.id == old(self).pipelines@.len(),
            final(self).pipelines@.len() == old(self).pipelines@.len() + 1,
            forall|j: int|
                0 <= j < old(self).pipelines@.len() ==> final(self).pipelines@[j]
                    == old(self).pipelines@[j],
            final(self).pipelines@[h.id as int].open_for_push == open_for_push,
            final(self).pipelines@[h.id as int].queued@ == Seq::<NetworkMessage>::empty(),
            final(self).pipelines@[h.id as int].n_calls == 0,
            final(self).link == old(self).link,
            final(self).shm_enabled == old(self).shm_enabled,
            final(self).stats == old(self).stats,
    {
        let h = PipelineHandle { id: self.pipelines.len() };
        self.pipelines.push(Pipeline::new(open_for_push));
        h
    }

    /// Publish `link` in the link state slot. This is the lifecycle manager's
    /// exclusive write: readers observe either no link or this
    /// fully-constructed one, never a partial value.
    pub fn set_link(&mut self, link: Option<Link>)
        requires
            match link {
                Some(l) => match l.pipeline {
                    Some(h) => h.id < old(self).pipelines@.len(),
                    None => true,
                },
                None => true,
            },
        ensures
            final(self).wf(),
            final(self).link == link,
            final(self).pipelines@ == old(self).pipelines@,
            final(self).shm_enabled == old(self).shm_enabled,
            final(self).stats == old(self).stats,
    {
        self.link = link;
    }

    /// Read a pipeline through its handle. The handle works whether or not
    /// the link it came from still stands in the slot.
    pub fn pipeline(&self, h: PipelineHandle) -> (p: &Pipeline)
        requires
            h.id < self.pipelines@.len(),
        ensures
            *p == self.pipelines@[h.id as int],
    {
        &self.pipelines[h.id]
    }

    /// Link dispatch. With no link or no pipeline the message is dropped
    /// without any further work. Otherwise the scheduler takes an owned copy
    /// of the pipeline handle and ends the slot read *before* issuing the
    /// push: a push may block for a long time under congestion, and the slot
    /// must stay free for other readers and for the lifecycle manager while
    /// it does.
    pub fn schedule_on_link(&mut self, msg: NetworkMessage) -> (admitted: bool)
        requires
            old(self).wf(),
        ensures
            final(self).wf(),
            final(self).link == old(self).link,
            final(self).shm_enabled == old(self).shm_enabled,
            final(self).stats == old(self).stats,
            admitted == (old(self).spec_link_outcome() is Sent),
            (old(self).spec_link_outcome() is Sent || old(self).spec_link_outcome()
                is DroppedPushRejected) ==> pushed_one(
                old(self).pipelines@,
                final(self).pipelines@,
                old(self).spec_slot_handle()->Some_0.id as int,
                msg,
                admitted,
            ),
            (old(self).spec_link_outcome() is DroppedNoLink || old(self).spec_link_outcome()
                is DroppedNoPipeline) ==> final(self).pipelines@ == old(self).pipelines@,
    {
        let handle: PipelineHandle = match &self.link {
            Some(l) => match &l.pipeline {
                Some(h) => *h,
                None => {
                    return false;
                },
            },
            None => {
                // no link: the common case right after startup or after a
                // link loss; the drop is cheap and only traced
                return false;
            },
        };
        // the slot read has ended here: a blocking push cannot stall slot
        // readers or a concurrent link replacement
        let pl = &mut self.pipelines[handle.id];
        pl.push_network_message(msg)
    }

    /// Schedule one outbound message: the public entry point. With shared
    /// memory enabled the payload is first converted, and a failed conversion
    /// drops the message before any pipeline is touched; otherwise the link
    /// dispatches it. Exactly one statistics counter moves per call. Every
    /// failure degrades to `false`: message loss on a best-effort multicast
    /// path is an expected outcome, not an error raised to the caller.
    pub fn schedule(&mut self, msg: NetworkMessage) -> (admitted: bool)
        requires
            old(self).wf(),
        ensures
            final(self).wf(),
            Self::schedule_effect(*old(self), *final(self), msg, admitted),
    {
        let mut msg = msg;
        if self.shm_enabled {
            let mapped = map_zmsg_to_partner(&mut msg);
            if mapped.is_err() {
                // conversion is all-or-nothing: nothing downstream ever sees
                // the message and no pipeline is touched
                self.stats.inc_tx_n_dropped(1);
                return false;
            }
        }
        let res = self.schedule_on_link(msg);
        if res {
            self.stats.inc_tx_n_msgs(1);
        } else {
            self.stats.inc_tx_n_dropped(1);
        }
        res
    }
}

/// No-link drop: with the link state slot empty, a schedule call reports the
/// message dropped, moves the dropped counter by exactly one, leaves the
/// admitted counter unchanged, and touches no pipeline.
pub proof fn lemma_no_link_drop(
    pre: TransportMulticastInner,
    post: TransportMulticastInner,
    msg: NetworkMessage,
    admitted: bool,
)
    requires
        pre.link is None,
        TransportMulticastInner::schedule_effect(pre, post, msg, admitted),
    ensures
        !admitted,
        post.stats.n_dropped == sat_add(pre.stats.n_dropped, 1),
        post.stats.n_msgs == pre.stats.n_msgs,
        post.pipelines@ == pre.pipelines@,
{
}

/// Link-without-pipeline drop: a link present with no pipeline handle yields
/// the same counter effect as the no-link case, and no pipeline is touched.
pub proof fn lemma_no_pipeline_drop(
    pre: TransportMulticastInner,
    post: TransportMulticastInner,
    msg: NetworkMessage,
    admitted: bool,
)
    requires
        pre.link is Some,
        pre.link->Some_0.pipeline is None,
        TransportMulticastInner::schedule_effect(pre, post, msg, admitted),
    ensures
        !admitted,
        post.stats.n_dropped == sat_add(pre.stats.n_dropped, 1),
        post.stats.n_msgs == pre.stats.n_msgs,
        post.pipelines@ == pre.pipelines@,
{
}

/// Successful dispatch: with a link whose pipeline admits every push, and a
/// conversion that does not fail, a schedule call reports the message
/// admitted, moves the admitted counter by exactly one, and the pipeline the
/// slot offered holds the (possibly converted) message at its tail.
pub proof fn lemma_successful_dispatch(
    pre: TransportMulticastInner,
    post: TransportMulticastInner,
    msg: NetworkMessage,
    admitted: bool,
)
    requires
        pre.spec_slot_handle() is Some,
        pre.pipelines@[pre.spec_slot_handle()->Some_0.id as int].open_for_push,
        pre.shm_enabled ==> msg.shm_eligible,
        TransportMulticastInner::schedule_effect(pre, post, msg, admitted),
    ensures
        admitted,
        post.stats.n_msgs == sat_add(pre.stats.n_msgs, 1),
        post.stats.n_dropped == pre.stats.n_dropped,
        post.pipelines@[pre.spec_slot_handle()->Some_0.id as int].queued@ == pre.pipelines@[
            pre.spec_slot_handle()->Some_0.id as int
        ].queued@.push(pre.spec_effective_msg(msg)),
{
}

/// Mapping failure short-circuits: with shared memory enabled and a message
/// the mapper refuses, a schedule call drops the message and no push is ever
/// issued — every pipeline, its call counter included, is untouched.
pub proof fn lemma_mapping_failure_short_circuits(
    pre: TransportMulticastInner,
    post: TransportMulticastInner,
    msg: NetworkMessage,
    admitted: bool,
)
    requires
        pre.shm_enabled,
        !msg.shm_eligible,
        TransportMulticastInner::schedule_effect(pre, post, msg, admitted),
    ensures
        !admitted,
        post.stats.n_dropped == sat_add(pre.stats.n_dropped, 1),
        post.stats.n_msgs == pre.stats.n_msgs,
        post.pipelines@ == pre.pipelines@,
{
}

/// Counter exclusivity: as long as neither counter has saturated, one
/// schedule call moves exactly one of the two counters, by exactly one —
/// never both, never neither.
pub proof fn lemma_counter_exclusivity(
    pre: TransportMulticastInner,
    post: TransportMulticastInner,
    msg: NetworkMessage,
    admitted: bool,
)
    requires
        pre.stats.n_msgs < u64::MAX,
        pre.stats.n_dropped < u64::MAX,
        TransportMulticastInner::schedule_effect(pre, post, msg, admitted),
    ensures
        admitted ==> post.stats.n_msgs == pre.stats.n_msgs + 1 && post.stats.n_dropped
            == pre.stats.n_dropped,
        !admitted ==> post.stats.n_dropped == pre.stats.n_dropped + 1 && post.stats.n_msgs
            == pre.stats.n_msgs,
{
}

/// The counters only grow, and the scheduler never creates, mutates or
/// removes a link: the slot after a schedule call is the slot before it.
pub proof fn lemma_counters_monotonic_slot_untouched(
    pre: TransportMulticastInner,
    post: TransportMulticastInner,
    msg: NetworkMessage,
    admitted: bool,
)
    requires
        TransportMulticastInner::schedule_effect(pre, post, msg, admitted),
    ensures
        post.stats.n_msgs >= pre.stats.n_msgs,
        post.stats.n_dropped >= pre.stats.n_dropped,
        post.link == pre.link,
{
}

} // verus!
