use vstd::prelude::*;

verus! {

/// The address of Solana's vote program.
pub const VOTE_PROGRAM_ID: [u8; 32] = [
    7, 97, 72, 29, 53, 116, 116, 187, 124, 77, 118, 36, 235, 211, 189, 179, 216, 53, 94, 115, 209,
    16, 67, 252, 13, 163, 83, 128, 0, 0, 0, 0,
];

/// What woke an update handler.
pub enum ChannelEvent<M> {
    /// The shutdown channel delivered a signal, or was closed.
    Shutdown,
    /// An update arrived.
    Received(M),
    /// Neither channel can deliver anything.
    AllClosed,
}

/// Why an update handler stopped.
#[derive(Debug, Clone, Copy, PartialEq, Eq, Structural)]
pub enum StopReason {
    ShutdownRequested,
    ChannelsClosed,
}

/// What an update handler does next.
pub enum ChannelAction<M> {
    /// Process the update, then wait again.
    Process(M),
    /// Leave the loop.
    Stop(StopReason),
}

/// The rule of the block and transaction handlers: a shutdown signal stops
/// them, an update is processed, and they stop when nothing can arrive.
pub fn channel_step<M>(event: ChannelEvent<M>) -> (action: ChannelAction<M>)
    ensures
        match event {
            ChannelEvent::Shutdown => action == ChannelAction::<M>::Stop(StopReason::ShutdownRequested),
            ChannelEvent::Received(m) => action == ChannelAction::<M>::Process(m),
            ChannelEvent::AllClosed => action == ChannelAction::<M>::Stop(StopReason::ChannelsClosed),
        },
{
    match event {
        ChannelEvent::Shutdown => ChannelAction::Stop(StopReason::ShutdownRequested),
        ChannelEvent::Received(m) => ChannelAction::Process(m),
        ChannelEvent::AllClosed => ChannelAction::Stop(StopReason::ChannelsClosed),
    }
}


/// A transaction of a block update, as far as the monitor reads it.
#[derive(Debug, Clone)]
pub struct BlockTransaction {
    /// The signature under which the update lists the transaction.
    pub signature: Vec<u8>,
    /// Whether the transaction is a vote.
    pub is_vote: bool,
    /// The signatures of the transaction itself, when the update carries it.
    pub transaction: Option<Vec<Vec<u8>>>,
}

/// A block update, as far as the monitor reads it.
#[derive(Debug, Clone)]
pub struct BlockUpdate {
    pub transactions: Vec<BlockTransaction>,
}

/// What the monitor reports of a vote transaction of a block.
#[derive(Debug, Clone)]
pub enum VoteReport {
    /// The transaction's first signature, and the Base58 text of its first
    /// 64 bytes.
    Signed { signature: Vec<u8>, base58: String },
    /// The transaction carries no signature; the update's signature of it.
    Unsigned { hash: Vec<u8> },
    /// The update does not carry the transaction; the update's signature of it.
    MissingTransaction { hash: Vec<u8> },
}

/// The Base58 text (Bitcoin alphabet) of some bytes.
pub uninterp spec fn base58_text(bytes: Seq<u8>) -> Seq<char>;

/// Calls `bs58::encode(bytes).into_string()`: the Base58 text of the bytes
/// in the Bitcoin alphabet, which depends on the bytes alone.
#[verifier::external_body]
fn base58_encode(bytes: &[u8]) -> (text: String)
    ensures
        text@ == base58_text(bytes@),
{
    bs58::encode(bytes).into_string()
}

/// The vote transactions among the transactions, in their order.
pub open spec fn vote_transactions(txs: Seq<BlockTransaction>) -> Seq<BlockTransaction>
    decreases txs.len(),
{
    if txs.len() == 0 {
        Seq::empty()
    } else if txs.last().is_vote {
        vote_transactions(txs.drop_last()).push(txs.last())
    } else {
        vote_transactions(txs.drop_last())
    }
}

/// The report that a vote transaction gives.
pub open spec fn reports_on(t: BlockTransaction, r: VoteReport) -> bool {
    match t.transaction {
        None => r matches VoteReport::MissingTransaction { hash } && hash@ == t.signature@,
        Some(sigs) => if sigs@.len() == 0 {
            r matches VoteReport::Unsigned { hash } && hash@ == t.signature@
        } else {
            r matches VoteReport::Signed { signature, base58 } && signature@ == sigs@[0]@
                && base58@ == base58_text(sigs@[0]@.take(64))
        },
    }
}

/// Every vote transaction whose first signature is read has one of at least
/// 64 bytes.
pub open spec fn first_signatures_complete(txs: Seq<BlockTransaction>) -> bool {
    forall|i: int|
        0 <= i < txs.len() && #[trigger] txs[i].is_vote && txs[i].transaction is Some
            && txs[i].transaction->0@.len() > 0 ==> txs[i].transaction->0@[0]@.len() >= 64
}

/// The reports are those of the vote transactions, one each, in order.
pub open spec fn reports_of(txs: Seq<BlockTransaction>, reports: Seq<VoteReport>) -> bool {
    &&& reports.len() == vote_transactions(txs).len()
    &&& forall|j: int| 0 <= j < reports.len() ==> reports_on(vote_transactions(txs)[j], #[trigger] reports[j])
}

/// Reports each vote transaction of a finalized block: its first
/// signature with the Base58 text of it, or that it carries no signature,
/// or that the update does not carry it. Other transactions are passed over.
pub fn process_block(block: &BlockUpdate) -> (reports: Vec<VoteReport>)
    requires
        first_signatures_complete(block.transactions@),
    ensures
        reports_of(block.transactions@, reports@),
        reports@.len() == block.transactions@.filter(|t: BlockTransaction| is_vote_tx(t)).len(),
{
    let mut reports: Vec<VoteReport> = Vec::new();
    let n = block.transactions.len();
    let mut i: usize = 0;
    while i < n
        invariant
            n == block.transactions@.len(),
            i <= n,
            first_signatures_complete(block.transactions@),
            reports_of(block.transactions@.take(i as int), reports@),
        decreases n - i,
    {
        let ghost txs = block.transactions@;
        assert(txs.take(i + 1).drop_last() == txs.take(i as int));
        assert(txs.take(i + 1).last() == txs[i as int]);
        let tx = &block.transactions[i];
        if tx.is_vote {
            let report = match &tx.transaction {
                Some(sigs) => {
                    if sigs.len() > 0 {
                        let first = &sigs[0];
                        assert(txs[i as int].is_vote);
                        let head = vstd::slice::slice_subrange(first.as_slice(), 0, 64);
                        let text = base58_encode(head);
                        let signature = first.clone();
                        assert(signature@ =~= first@);
                        VoteReport::Signed { signature, base58: text }
                    } else {
                        let hash = tx.signature.clone();
                        assert(hash@ =~= tx.signature@);
                        VoteReport::Unsigned { hash }
                    }
                },
                None => {
                    let hash = tx.signature.clone();
                    assert(hash@ =~= tx.signature@);
                    VoteReport::MissingTransaction { hash }
                },
            };
            reports.push(report);
        }
        i = i + 1;
    }
    assert(block.transactions@.take(n as int) == block.transactions@);
    proof {
        lemma_vote_transactions_filter(block.transactions@);
    }
    reports
}

/// Whether a transaction is a vote.
pub open spec fn is_vote_tx(t: BlockTransaction) -> bool {
    t.is_vote
}

/// The reported transactions are exactly the votes of the block, each
/// once, in the block's order: std's filter of the transactions by
/// `is_vote`.
pub proof fn lemma_vote_transactions_filter(txs: Seq<BlockTransaction>)
    ensures
        vote_transactions(txs) == txs.filter(|t: BlockTransaction| is_vote_tx(t)),
    decreases txs.len(),
{
    reveal(Seq::filter);
    if txs.len() > 0 {
        lemma_vote_transactions_filter(txs.drop_last());
    }
}

/// A single vote transaction is reported once; a single other transaction
/// is not reported.
pub proof fn lemma_vote_transactions_single(t: BlockTransaction)
    ensures
        t.is_vote ==> vote_transactions(seq![t]) == seq![t],
        !t.is_vote ==> vote_transactions(seq![t]).len() == 0,
{
    assert(seq![t].drop_last() == Seq::<BlockTransaction>::empty());
    assert(seq![t].last() == t);
    assert(vote_transactions(Seq::<BlockTransaction>::empty()) == Seq::<BlockTransaction>::empty());
    assert(Seq::<BlockTransaction>::empty().push(t) == seq![t]);
}

/// What the report of a vote transaction is, by the transaction alone: when
/// the transaction carries at least one signature, whatever their number
/// and length, the report gives the first signature and the Base58 text of
/// its first 64 bytes; when it carries none, the report says so with the
/// update's signature; when the update does not carry the transaction, the
/// report says that, with the update's signature.
pub proof fn lemma_report_cases(t: BlockTransaction, r: VoteReport)
    requires
        reports_on(t, r),
    ensures
        t.transaction is Some && t.transaction->0@.len() > 0 ==> (r matches VoteReport::Signed { signature, base58 }
            && signature@ == t.transaction->0@[0]@ && base58@ == base58_text(t.transaction->0@[0]@.take(64))),
        t.transaction is Some && t.transaction->0@.len() == 0 ==> (r matches VoteReport::Unsigned { hash }
            && hash@ == t.signature@),
        t.transaction is None ==> (r matches VoteReport::MissingTransaction { hash } && hash@ == t.signature@),
{
}

/// The reports of a block made of two runs of transactions are the reports
/// of the first run followed by those of the second.
pub proof fn lemma_vote_transactions_split(a: Seq<BlockTransaction>, b: Seq<BlockTransaction>)
    ensures
        vote_transactions(a + b) == vote_transactions(a) + vote_transactions(b),
    decreases b.len(),
{
    if b.len() == 0 {
        assert(a + b == a);
        assert(vote_transactions(a) + vote_transactions(b) == vote_transactions(a));
    } else {
        lemma_vote_transactions_split(a, b.drop_last());
        assert((a + b).drop_last() == a + b.drop_last());
        assert((a + b).last() == b.last());
    }
}

/// Only vote transactions are reported: the transactions reported on are
/// votes of the block, and every vote of the block is reported on.
pub proof fn lemma_vote_transactions_are_votes(txs: Seq<BlockTransaction>)
    ensures
        forall|j: int| 0 <= j < vote_transactions(txs).len() ==> (#[trigger] vote_transactions(txs)[j]).is_vote,
        forall|j: int| 0 <= j < vote_transactions(txs).len() ==> txs.contains(#[trigger] vote_transactions(txs)[j]),
        forall|i: int| 0 <= i < txs.len() && (#[trigger] txs[i]).is_vote ==> vote_transactions(txs).contains(txs[i]),
    decreases txs.len(),
{
    if txs.len() > 0 {
        let init = txs.drop_last();
        lemma_vote_transactions_are_votes(init);
        let vi = vote_transactions(init);
        let v = vote_transactions(txs);
        assert forall|j: int| 0 <= j < v.len() implies txs.contains(#[trigger] v[j]) by {
            if j < vi.len() {
                assert(v[j] == vi[j]);
                let k = choose|k: int| 0 <= k < init.len() && init[k] == vi[j];
                assert(txs[k] == init[k]);
            } else {
                assert(txs[txs.len() - 1] == txs.last());
            }
        }
        assert forall|i: int| 0 <= i < txs.len() && (#[trigger] txs[i]).is_vote implies v.contains(txs[i]) by {
            if i < init.len() {
                assert(init[i] == txs[i]);
                let k = choose|k: int| 0 <= k < vi.len() && vi[k] == init[i];
                assert(v[k] == vi[k]);
            } else {
                assert(v[v.len() - 1] == txs.last());
            }
        }
    }
}

} // verus!
