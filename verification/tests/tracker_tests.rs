use std::sync::Arc;
use rustc_hash::FxHashSet;
use vote_tracker::tracker::{PendingVote, VoteTracker, BLUK_DUMP, VOTE_CREDITS_GRACE_SLOTS, VOTE_CREDITS_MAXIMUM_PER_SLOT};

fn vote(sig: &str, slot: u64) -> PendingVote {
    let mut slots = FxHashSet::default();
    slots.insert(slot);
    PendingVote {
        signature: Arc::new(sig.to_string()),
        voted_slots: slots,
        transaction_slot: slot + 1,
        timestamp: 1_700_000_000_000_000,
        instruction_data: vec![1, 2, 3],
    }
}

#[test]
fn new_tracker_is_empty() {
    let t = VoteTracker::new();
    assert_eq!(t.pending_count(), 0);
    assert_eq!(t.confirmed_count(), 0);
    assert!(!t.is_pending(&"x".to_string()));
}

#[test]
fn added_vote_is_pending() {
    let mut t = VoteTracker::new();
    t.add_pending_vote(vote("sigA", 10));
    assert!(t.is_pending(&"sigA".to_string()));
    assert!(!t.is_pending(&"sigB".to_string()));
    assert_eq!(t.pending_count(), 1);
    assert_eq!(t.confirmed_count(), 0);
}

#[test]
fn later_vote_with_same_signature_replaces() {
    let mut t = VoteTracker::new();
    t.add_pending_vote(vote("sigA", 10));
    t.add_pending_vote(vote("sigA", 11));
    assert_eq!(t.pending_count(), 1);
    t.add_pending_vote(vote("sigB", 12));
    assert_eq!(t.pending_count(), 2);
    assert!(t.is_pending(&"sigB".to_string()));
}

#[test]
fn pending_vote_clone_keeps_fields() {
    let v = vote("sigC", 5);
    let c = v.clone();
    assert_eq!(*c.signature, "sigC");
    assert!(c.voted_slots.contains(&5));
    assert_eq!(c.voted_slots.len(), 1);
    assert_eq!(c.transaction_slot, 6);
    assert_eq!(c.timestamp, v.timestamp);
    assert_eq!(c.instruction_data, vec![1, 2, 3]);
}

#[test]
fn tracker_constants() {
    assert_eq!(VOTE_CREDITS_GRACE_SLOTS, 2);
    assert_eq!(VOTE_CREDITS_MAXIMUM_PER_SLOT, 16);
    assert_eq!(BLUK_DUMP, 50);
}
