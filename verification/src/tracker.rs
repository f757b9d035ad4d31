use std::sync::Arc;
use vstd::prelude::*;
use rustc_hash::{FxBuildHasher, FxHashMap, FxHashSet};

verus! {

/// A slot of the Solana ledger.
pub type Slot = u64;

pub const VOTE_CREDITS_GRACE_SLOTS: u8 = 2;

pub const VOTE_CREDITS_MAXIMUM_PER_SLOT: u8 = 16;

pub const BLUK_DUMP: u8 = 50;

/// Room that each table of the tracker is made with.
pub const TRACKER_TABLE_CAPACITY: usize = 1000;

#[verifier::external_type_specification]
#[verifier::external_body]
pub struct ExFxBuildHasher(FxBuildHasher);

/// The slots held in a set of slots.
pub uninterp spec fn slot_set(set: FxHashSet<Slot>) -> Set<Slot>;

/// Calls `Clone::clone` of std's `HashSet` on a set of slots; the copy holds
/// the same slots.
#[verifier::external_body]
fn clone_slot_set(set: &FxHashSet<Slot>) -> (copy: FxHashSet<Slot>)
    ensures
        slot_set(copy) == slot_set(*set),
{
    set.clone()
}

/// Calls `Clone::clone` of std's `Arc`: another handle on the same string.
#[verifier::external_body]
fn share_signature(signature: &Arc<String>) -> (shared: Arc<String>)
    ensures
        shared@ == signature@,
{
    Arc::clone(signature)
}

/// A vote seen in a transaction, awaiting confirmation in a finalized block.
#[derive(Debug)]
pub struct PendingVote {
    pub signature: Arc<String>,
    pub voted_slots: FxHashSet<Slot>,
    pub transaction_slot: Slot,
    /// When the vote was seen, in microseconds since the Unix epoch.
    pub timestamp: i64,
    pub instruction_data: Vec<u8>,
}

impl Clone for PendingVote {
    fn clone(&self) -> (copy: Self)
        ensures
            copy.signature@ == self.signature@,
            slot_set(copy.voted_slots) == slot_set(self.voted_slots),
            copy.transaction_slot == self.transaction_slot,
            copy.timestamp == self.timestamp,
            copy.instruction_data@ == self.instruction_data@,
    {
        PendingVote {
            signature: share_signature(&self.signature),
            voted_slots: clone_slot_set(&self.voted_slots),
            transaction_slot: self.transaction_slot,
            timestamp: self.timestamp,
            instruction_data: self.instruction_data.clone(),
        }
    }
}

/// A vote confirmed in a finalized block.
#[derive(Debug, Clone)]
pub struct ConfirmVote {
    pub signature: String,
    pub voted_slot: Slot,
    pub finalized_slot: Slot,
    pub tvc_credits: u64,
    pub latency: u64,
    /// When the vote was confirmed, in microseconds since the Unix epoch.
    pub timestamp: i64,
}


/// A table of pending votes, keyed by signature.
pub type PendingTable = FxHashMap<Arc<String>, PendingVote>;

/// A table of confirmed votes, keyed by signature.
pub type ConfirmedTable = FxHashMap<String, ConfirmVote>;

/// The votes held in a table of pending votes, by the text of the key that
/// each is stored under.
pub uninterp spec fn pending_table(table: PendingTable) -> Map<Seq<char>, PendingVote>;

/// The votes held in a table of confirmed votes, by the text of the key
/// that each is stored under.
pub uninterp spec fn confirmed_table(table: ConfirmedTable) -> Map<Seq<char>, ConfirmVote>;

/// Calls `HashMap::with_capacity_and_hasher` of std with rustc-hash's
/// `FxBuildHasher`: a pending-vote table that holds nothing.
#[verifier::external_body]
fn new_pending_table(capacity: usize) -> (table: PendingTable)
    ensures
        pending_table(table).dom() == Set::<Seq<char>>::empty(),
{
    FxHashMap::with_capacity_and_hasher(capacity, FxBuildHasher)
}

/// Calls `HashMap::with_capacity_and_hasher` of std with rustc-hash's
/// `FxBuildHasher`: a confirmed-vote table that holds nothing.
#[verifier::external_body]
fn new_confirmed_table(capacity: usize) -> (table: ConfirmedTable)
    ensures
        confirmed_table(table).dom() == Set::<Seq<char>>::empty(),
{
    FxHashMap::with_capacity_and_hasher(capacity, FxBuildHasher)
}

/// Calls `HashMap::insert` on a pending-vote table: afterwards the key's
/// text maps to the given vote, every other entry stays as it was.
#[verifier::external_body]
fn insert_pending(table: &mut PendingTable, key: Arc<String>, vote: PendingVote)
    ensures
        pending_table(*final(table)) == pending_table(*old(table)).insert(key@, vote),
{
    table.insert(key, vote);
}

/// Calls `HashMap::len` on a pending-vote table: the number of votes it holds.
#[verifier::external_body]
fn pending_table_len(table: &PendingTable) -> (n: usize)
    ensures
        n == pending_table(*table).len(),
{
    table.len()
}

/// Calls `HashMap::len` on a confirmed-vote table: the number of votes it holds.
#[verifier::external_body]
fn confirmed_table_len(table: &ConfirmedTable) -> (n: usize)
    ensures
        n == confirmed_table(*table).len(),
{
    table.len()
}

/// Calls `HashMap::contains_key` on a pending-vote table: whether a vote is
/// stored under the signature's text.
#[verifier::external_body]
fn pending_table_contains(table: &PendingTable, signature: &String) -> (found: bool)
    ensures
        found == pending_table(*table).contains_key(signature@),
{
    table.contains_key(signature)
}

/// Tracks the votes of the monitored account: those seen in transactions
/// and awaiting a finalized block, and those confirmed.
#[derive(Debug)]
pub struct VoteTracker {
    last_cleanup_slot: Slot,
    pending_votes: PendingTable,
    confirm_votes: ConfirmedTable,
}

impl VoteTracker {
    /// The pending votes, by signature.
    pub closed spec fn pending(self) -> Map<Seq<char>, PendingVote> {
        pending_table(self.pending_votes)
    }

    /// The confirmed votes, by signature.
    pub closed spec fn confirmed(self) -> Map<Seq<char>, ConfirmVote> {
        confirmed_table(self.confirm_votes)
    }

    /// The last slot up to which the tables were cleaned.
    pub closed spec fn cleanup_slot(self) -> Slot {
        self.last_cleanup_slot
    }

    /// Both tables are finite, and every vote is stored under the text of
    /// its own signature.
    pub open spec fn wf(self) -> bool {
        &&& self.pending().dom().finite()
        &&& self.confirmed().dom().finite()
        &&& forall|k: Seq<char>| #[trigger] self.pending().contains_key(k) ==> self.pending()[k].signature@ == k
        &&& forall|k: Seq<char>| #[trigger] self.confirmed().contains_key(k) ==> self.confirmed()[k].signature@ == k
    }

    /// A tracker that holds no vote and has cleaned nothing yet.
    pub fn new() -> (tracker: Self)
        ensures
            tracker.wf(),
            tracker.pending() == Map::<Seq<char>, PendingVote>::empty(),
            tracker.confirmed() == Map::<Seq<char>, ConfirmVote>::empty(),
            tracker.cleanup_slot() == 0,
    {
        let tracker = VoteTracker {
            last_cleanup_slot: 0,
            pending_votes: new_pending_table(TRACKER_TABLE_CAPACITY),
            confirm_votes: new_confirmed_table(TRACKER_TABLE_CAPACITY),
        };
        assert(tracker.pending() =~= Map::<Seq<char>, PendingVote>::empty());
        assert(tracker.confirmed() =~= Map::<Seq<char>, ConfirmVote>::empty());
        tracker
    }

    /// The number of pending votes.
    pub fn pending_count(&self) -> (n: usize)
        ensures
            n == self.pending().len(),
    {
        pending_table_len(&self.pending_votes)
    }

    /// The number of confirmed votes.
    pub fn confirmed_count(&self) -> (n: usize)
        ensures
            n == self.confirmed().len(),
    {
        confirmed_table_len(&self.confirm_votes)
    }

    /// Whether a vote with this signature is pending.
    pub fn is_pending(&self, signature: &String) -> (found: bool)
        ensures
            found == self.pending().contains_key(signature@),
    {
        pending_table_contains(&self.pending_votes, signature)
    }

    /// Records a pending vote under its signature; a vote already pending
    /// under the same signature is replaced.
    pub fn add_pending_vote(&mut self, vote: PendingVote)
        requires
            old(self).wf(),
        ensures
            final(self).wf(),
            final(self).pending() == old(self).pending().insert(vote.signature@, vote),
            final(self).pending().len() == old(self).pending().len() + (if old(self).pending().contains_key(vote.signature@) { 0int } else { 1int }),
            final(self).confirmed() == old(self).confirmed(),
            final(self).cleanup_slot() == old(self).cleanup_slot(),
    {
        let key = share_signature(&vote.signature);
        let ghost sig = vote.signature@;
        let ghost before = self.pending();
        insert_pending(&mut self.pending_votes, key, vote);
        assert forall|k: Seq<char>| #[trigger] self.pending().contains_key(k) implies self.pending()[k].signature@ == k by {
            if k != sig {
                assert(before.contains_key(k));
            }
        }
        assert(self.confirmed() == old(self).confirmed());
        assert(forall|k: Seq<char>| #[trigger] self.confirmed().contains_key(k) ==> self.confirmed()[k].signature@ == k);
    }
}


/// A vote added under a signature that is already pending replaces the
/// earlier one: after both additions only the later vote is pending under
/// that signature, and the other entries are as after the later alone.
pub proof fn lemma_later_vote_replaces(
    pending: Map<Seq<char>, PendingVote>,
    earlier: PendingVote,
    later: PendingVote,
)
    requires
        earlier.signature@ == later.signature@,
    ensures
        pending.insert(earlier.signature@, earlier).insert(later.signature@, later)
            == pending.insert(later.signature@, later),
{
    assert(pending.insert(earlier.signature@, earlier).insert(later.signature@, later)
        =~= pending.insert(later.signature@, later));
}

/// Adding votes under different signatures keeps both, whatever the order.
pub proof fn lemma_distinct_votes_commute(
    pending: Map<Seq<char>, PendingVote>,
    first: PendingVote,
    second: PendingVote,
)
    requires
        first.signature@ != second.signature@,
    ensures
        pending.insert(first.signature@, first).insert(second.signature@, second)
            == pending.insert(second.signature@, second).insert(first.signature@, first),
{
    assert(pending.insert(first.signature@, first).insert(second.signature@, second)
        =~= pending.insert(second.signature@, second).insert(first.signature@, first));
}

} // verus!
