use multicast_dispatch::msg::NetworkMessage;
use multicast_dispatch::shm::map_zmsg_to_partner;
use multicast_dispatch::shm::MapError;
use multicast_dispatch::stats::TransportStats;
use multicast_dispatch::tx::Link;
use multicast_dispatch::tx::TransportMulticastInner;

fn msg(key: &str, shm_eligible: bool) -> NetworkMessage {
    NetworkMessage::new(String::from(key), vec![1, 2, 3], shm_eligible)
}

#[test]
fn empty_slot_drops() {
    let mut t = TransportMulticastInner::new(false);
    let sent = t.schedule(msg("m1", false));
    assert!(!sent);
    assert_eq!(t.stats.n_msgs, 0);
    assert_eq!(t.stats.n_dropped, 1);
}

#[test]
fn link_without_pipeline_drops() {
    let mut t = TransportMulticastInner::new(false);
    t.set_link(Some(Link { pipeline: None }));
    let sent = t.schedule(msg("m", false));
    assert!(!sent);
    assert_eq!(t.stats.n_msgs, 0);
    assert_eq!(t.stats.n_dropped, 1);
}

#[test]
fn always_accept_pipeline_sends() {
    let mut t = TransportMulticastInner::new(false);
    let h = t.new_pipeline(true);
    t.set_link(Some(Link { pipeline: Some(h) }));
    let sent = t.schedule(msg("m2", false));
    assert!(sent);
    assert_eq!(t.stats.n_msgs, 1);
    assert_eq!(t.stats.n_dropped, 0);
    let p = t.pipeline(h);
    assert_eq!(p.n_calls, 1);
    assert_eq!(p.queued.len(), 1);
    assert_eq!(p.queued[0].key, "m2");
    assert_eq!(p.queued[0].payload, vec![1, 2, 3]);
}

#[test]
fn always_reject_pipeline_drops() {
    let mut t = TransportMulticastInner::new(false);
    let h = t.new_pipeline(false);
    t.set_link(Some(Link { pipeline: Some(h) }));
    let sent = t.schedule(msg("m3", false));
    assert!(!sent);
    assert_eq!(t.stats.n_msgs, 0);
    assert_eq!(t.stats.n_dropped, 1);
    // the push was issued and rejected
    let p = t.pipeline(h);
    assert_eq!(p.n_calls, 1);
    assert_eq!(p.queued.len(), 0);
}

#[test]
fn mapping_failure_short_circuits() {
    let mut t = TransportMulticastInner::new(true);
    let h = t.new_pipeline(true);
    t.set_link(Some(Link { pipeline: Some(h) }));
    let sent = t.schedule(msg("m4", false));
    assert!(!sent);
    assert_eq!(t.stats.n_msgs, 0);
    assert_eq!(t.stats.n_dropped, 1);
    // the push was never issued: the pipeline saw no call at all
    let p = t.pipeline(h);
    assert_eq!(p.n_calls, 0);
    assert_eq!(p.queued.len(), 0);
}

#[test]
fn mapping_success_rewrites_payload_representation() {
    let mut t = TransportMulticastInner::new(true);
    let h = t.new_pipeline(true);
    t.set_link(Some(Link { pipeline: Some(h) }));
    let sent = t.schedule(msg("m", true));
    assert!(sent);
    assert_eq!(t.stats.n_msgs, 1);
    let p = t.pipeline(h);
    assert_eq!(p.queued.len(), 1);
    assert!(p.queued[0].shm_mapped);
    assert_eq!(p.queued[0].payload, vec![1, 2, 3]);
    assert_eq!(p.queued[0].key, "m");
}

#[test]
fn shm_disabled_skips_mapping() {
    let mut t = TransportMulticastInner::new(false);
    let h = t.new_pipeline(true);
    t.set_link(Some(Link { pipeline: Some(h) }));
    // even an eligible message keeps its plain representation
    let sent = t.schedule(msg("m", true));
    assert!(sent);
    let p = t.pipeline(h);
    assert!(!p.queued[0].shm_mapped);
}

#[test]
fn handle_outlives_link_removal() {
    let mut t = TransportMulticastInner::new(false);
    let h = t.new_pipeline(true);
    t.set_link(Some(Link { pipeline: Some(h) }));
    assert!(t.schedule(msg("a", false)));
    // the lifecycle manager tears the link down mid-stream
    t.set_link(None);
    assert!(!t.schedule(msg("b", false)));
    // the pipeline behind the handle is untouched by the slot rewrite
    let p = t.pipeline(h);
    assert_eq!(p.n_calls, 1);
    assert_eq!(p.queued.len(), 1);
    assert_eq!(p.queued[0].key, "a");
    // republishing a link with the same handle keeps the queue
    t.set_link(Some(Link { pipeline: Some(h) }));
    assert!(t.schedule(msg("c", false)));
    let p = t.pipeline(h);
    assert_eq!(p.queued.len(), 2);
    assert_eq!(p.queued[1].key, "c");
}

#[test]
fn link_replacement_switches_pipelines() {
    let mut t = TransportMulticastInner::new(false);
    let h1 = t.new_pipeline(true);
    t.set_link(Some(Link { pipeline: Some(h1) }));
    assert!(t.schedule(msg("a", false)));
    let h2 = t.new_pipeline(true);
    t.set_link(Some(Link { pipeline: Some(h2) }));
    assert!(t.schedule(msg("b", false)));
    assert_eq!(t.pipeline(h1).queued.len(), 1);
    assert_eq!(t.pipeline(h2).queued.len(), 1);
    assert_eq!(t.pipeline(h2).queued[0].key, "b");
}

#[test]
fn exactly_one_counter_moves_per_call() {
    let mut t = TransportMulticastInner::new(true);
    let h = t.new_pipeline(false);
    let outcomes = [
        (None, false),
        (Some(Link { pipeline: None }), false),
        (Some(Link { pipeline: Some(h) }), false),
        (None, true),
        (Some(Link { pipeline: Some(h) }), true),
    ];
    let mut calls: u64 = 0;
    for (link, eligible) in outcomes {
        t.set_link(link);
        t.schedule(msg("m", eligible));
        calls += 1;
        assert_eq!(t.stats.n_msgs + t.stats.n_dropped, calls);
    }
    let h_open = t.new_pipeline(true);
    t.set_link(Some(Link { pipeline: Some(h_open) }));
    t.schedule(msg("m", true));
    calls += 1;
    assert_eq!(t.stats.n_msgs + t.stats.n_dropped, calls);
    assert_eq!(t.stats.n_msgs, 1);
}

#[test]
fn mapper_succeeds_only_on_eligible_payloads() {
    let mut m = msg("k", true);
    assert_eq!(map_zmsg_to_partner(&mut m), Ok(()));
    assert!(m.shm_mapped);
    assert_eq!(m.key, "k");
    assert_eq!(m.payload, vec![1, 2, 3]);

    let mut m = msg("k", false);
    assert_eq!(map_zmsg_to_partner(&mut m), Err(MapError::NotShmEligible));
    // all-or-nothing: the message is exactly as it was
    assert_eq!(m, msg("k", false));
}

#[test]
fn counters_saturate_instead_of_wrapping() {
    let mut s = TransportStats::new();
    s.inc_tx_n_msgs(u64::MAX);
    s.inc_tx_n_msgs(1);
    assert_eq!(s.n_msgs, u64::MAX);
    s.inc_tx_n_dropped(u64::MAX - 1);
    s.inc_tx_n_dropped(1);
    s.inc_tx_n_dropped(1);
    assert_eq!(s.n_dropped, u64::MAX);
    assert_eq!(s.n_msgs, u64::MAX);
}
