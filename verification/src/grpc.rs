use vstd::prelude::*;
use crate::config::Config;
use crate::geyser::{builder_for_endpoint, builder_with_tls, builder_with_x_token, native_roots_tls_config};
pub use crate::geyser::{
    accepts_endpoint, accepts_x_token, is_token_char, BuildStep, BuilderError, ClientBuilder, TlsSettings,
};

verus! {

/// The step at which building the gRPC client failed.
#[derive(Debug)]
pub enum GrpcClientError {
    /// The configured address is not a valid endpoint.
    Endpoint(BuilderError),
    /// The configured token has a character that cannot stand in a
    /// metadata value.
    XToken(BuilderError),
    /// TLS could not be set up with the platform's root certificates.
    Tls(BuilderError),
}

/// A builder for the Geyser gRPC client of the configured endpoint, with
/// the configured `x-token` and TLS over the platform's root certificates.
pub fn create_grpc_client(config: &Config) -> (res: Result<ClientBuilder, GrpcClientError>)
    ensures
        res matches Err(GrpcClientError::Endpoint(_)) <==> !accepts_endpoint(config.grpc_url@),
        res matches Err(GrpcClientError::XToken(_)) <==> accepts_endpoint(config.grpc_url@) && !accepts_x_token(config.x_token@),
        res matches Err(GrpcClientError::Tls(_)) ==> accepts_endpoint(config.grpc_url@) && accepts_x_token(config.x_token@),
        res is Ok ==> accepts_endpoint(config.grpc_url@) && accepts_x_token(config.x_token@),
        res matches Ok(b) ==> b.endpoint() == config.grpc_url@ && b.x_token() == Some(config.x_token@)
            && b.native_roots_tls(),
        res matches Err(GrpcClientError::Endpoint(e)) ==> e.step() == BuildStep::Endpoint
            && e.endpoint() == config.grpc_url@,
        res matches Err(GrpcClientError::XToken(e)) ==> e.step() == BuildStep::XToken
            && e.endpoint() == config.grpc_url@ && e.x_token() == Some(config.x_token@),
        res matches Err(GrpcClientError::Tls(e)) ==> e.step() == BuildStep::Tls
            && e.endpoint() == config.grpc_url@ && e.x_token() == Some(config.x_token@)
            && e.native_roots_tls(),
{
    let builder = match builder_for_endpoint(config.grpc_url.clone()) {
        Ok(b) => b,
        Err(e) => return Err(GrpcClientError::Endpoint(e)),
    };
    let builder = match builder_with_x_token(builder, config.x_token.clone()) {
        Ok(b) => b,
        Err(e) => return Err(GrpcClientError::XToken(e)),
    };
    match builder_with_tls(builder, native_roots_tls_config()) {
        Ok(b) => Ok(b),
        Err(e) => Err(GrpcClientError::Tls(e)),
    }
}

/// The name under which the vote-transaction filter is registered.
pub const VOTE_TRANSACTIONS_FILTER: &'static str = "vote_transactions";

/// The name under which the finalized-block filter is registered.
pub const FINALIZED_BLOCKS_FILTER: &'static str = "finalized_blocks";

/// How far along a slot must be for its updates to be sent.
#[derive(Debug, Clone, Copy, PartialEq, Eq, Structural)]
pub enum CommitmentLevel {
    Processed,
    Confirmed,
    Finalized,
}

/// Which transactions a subscription asks for.
#[derive(Debug, Clone)]
pub struct TransactionFilter {
    pub vote: Option<bool>,
    pub failed: Option<bool>,
    pub signature: Option<String>,
    pub account_include: Vec<String>,
    pub account_exclude: Vec<String>,
    pub account_required: Vec<String>,
}

/// Which blocks a subscription asks for, and what they carry.
#[derive(Debug, Clone)]
pub struct BlockFilter {
    pub account_include: Vec<String>,
    pub include_transactions: Option<bool>,
    pub include_accounts: Option<bool>,
    pub include_entries: Option<bool>,
}

/// The part of a Geyser subscription request that the monitor sets: named
/// transaction filters, named block filters and the commitment level.
/// Every other part of the request is left at its default.
#[derive(Debug, Clone)]
pub struct SubscribeRequest {
    pub transactions: Vec<(String, TransactionFilter)>,
    pub blocks: Vec<(String, BlockFilter)>,
    pub commitment: Option<CommitmentLevel>,
}

/// The list holds exactly the one account.
pub open spec fn lists_only(accounts: Vec<String>, account: Seq<char>) -> bool {
    accounts@.len() == 1 && accounts@[0]@ == account
}

/// Vote transactions, failed ones too, that mention the account.
pub open spec fn is_vote_filter(f: TransactionFilter, account: Seq<char>) -> bool {
    &&& f.vote == Some(true)
    &&& f.failed == Some(true)
    &&& f.signature is None
    &&& lists_only(f.account_include, account)
    &&& f.account_exclude@.len() == 0
    &&& f.account_required@.len() == 0
}

/// Blocks that mention the account, with their transactions and without
/// their accounts and entries.
pub open spec fn is_block_filter(f: BlockFilter, account: Seq<char>) -> bool {
    &&& lists_only(f.account_include, account)
    &&& f.include_transactions == Some(true)
    &&& f.include_accounts == Some(false)
    &&& f.include_entries == Some(false)
}

/// The subscription that follows the votes of an account: one vote filter,
/// one block filter, both for that account, at finalized commitment.
pub open spec fn is_vote_subscription(r: SubscribeRequest, account: Seq<char>) -> bool {
    &&& r.transactions@.len() == 1
    &&& r.transactions@[0].0@ == VOTE_TRANSACTIONS_FILTER@
    &&& is_vote_filter(r.transactions@[0].1, account)
    &&& r.blocks@.len() == 1
    &&& r.blocks@[0].0@ == FINALIZED_BLOCKS_FILTER@
    &&& is_block_filter(r.blocks@[0].1, account)
    &&& r.commitment == Some(CommitmentLevel::Finalized)
}

/// The subscription request for the configured vote account.
pub fn grpc_client_subscribe_request(config: &Config) -> (request: SubscribeRequest)
    ensures
        is_vote_subscription(request, config.vote_account@),
        request.transactions@.len() == 1,
        request.transactions@[0].1.account_include@.len() == 1,
        request.transactions@[0].1.account_include@[0]@ == config.vote_account@,
        request.blocks@.len() == 1,
        request.blocks@[0].1.account_include@.len() == 1,
        request.blocks@[0].1.account_include@[0]@ == config.vote_account@,
{
    let mut tx_accounts: Vec<String> = Vec::new();
    tx_accounts.push(config.vote_account.clone());
    let vote_filter = TransactionFilter {
        vote: Some(true),
        failed: Some(true),
        signature: None,
        account_include: tx_accounts,
        account_exclude: Vec::new(),
        account_required: Vec::new(),
    };
    let mut block_accounts: Vec<String> = Vec::new();
    block_accounts.push(config.vote_account.clone());
    let block_filter = BlockFilter {
        account_include: block_accounts,
        include_transactions: Some(true),
        include_accounts: Some(false),
        include_entries: Some(false),
    };
    let mut transactions: Vec<(String, TransactionFilter)> = Vec::new();
    transactions.push((String::from_str(VOTE_TRANSACTIONS_FILTER), vote_filter));
    let mut blocks: Vec<(String, BlockFilter)> = Vec::new();
    blocks.push((String::from_str(FINALIZED_BLOCKS_FILTER), block_filter));
    SubscribeRequest { transactions, blocks, commitment: Some(CommitmentLevel::Finalized) }
}

/// A subscription for an account is exactly this: one filter named
/// `vote_transactions` for vote transactions, failed ones included, whose
/// only included account is the account verbatim and which excludes and
/// requires none; one filter named `finalized_blocks` for blocks with their
/// transactions and without accounts or entries, whose only included account
/// is the account verbatim; finalized commitment.
pub proof fn lemma_vote_subscription_fields(r: SubscribeRequest, account: Seq<char>)
    requires
        is_vote_subscription(r, account),
    ensures
        r.transactions@.len() == 1,
        r.transactions@[0].0@ == "vote_transactions"@,
        r.transactions@[0].1.vote == Some(true),
        r.transactions@[0].1.failed == Some(true),
        r.transactions@[0].1.signature is None,
        r.transactions@[0].1.account_include@.len() == 1,
        r.transactions@[0].1.account_include@[0]@ == account,
        r.transactions@[0].1.account_exclude@.len() == 0,
        r.transactions@[0].1.account_required@.len() == 0,
        r.blocks@.len() == 1,
        r.blocks@[0].0@ == "finalized_blocks"@,
        r.blocks@[0].1.account_include@.len() == 1,
        r.blocks@[0].1.account_include@[0]@ == account,
        r.blocks@[0].1.include_transactions == Some(true),
        r.blocks@[0].1.include_accounts == Some(false),
        r.blocks@[0].1.include_entries == Some(false),
        r.commitment == Some(CommitmentLevel::Finalized),
{
}

/// What the update stream yielded.
pub enum StreamEvent<B, T> {
    /// A block update.
    Block(B),
    /// A transaction update.
    Transaction(T),
    /// An update of another kind, or one with no content.
    OtherUpdate,
    /// An error in place of an update.
    Failed,
    /// The stream has ended.
    Ended,
    /// The last forwarded update could not be handed on: nobody listens.
    SendFailed,
}

/// What the forwarding task does next.
pub enum StreamAction<B, T> {
    /// Hand the block to the block listeners.
    ForwardBlock(B),
    /// Hand the transaction to the transaction listeners.
    ForwardTransaction(T),
    /// Wait for the next update.
    Skip,
    /// Stop forwarding.
    Stop,
}

/// The forwarding rule of the update stream: blocks go to the block
/// listeners, transactions to the transaction listeners, everything else
/// (errors included) is passed over; the task stops when the stream ends
/// or when an update cannot be handed on.
pub fn stream_step<B, T>(event: StreamEvent<B, T>) -> (action: StreamAction<B, T>)
    ensures
        match event {
            StreamEvent::Block(b) => action == StreamAction::<B, T>::ForwardBlock(b),
            StreamEvent::Transaction(t) => action == StreamAction::<B, T>::ForwardTransaction(t),
            StreamEvent::OtherUpdate => action is Skip,
            StreamEvent::Failed => action is Skip,
            StreamEvent::Ended => action is Stop,
            StreamEvent::SendFailed => action is Stop,
        },
{
    match event {
        StreamEvent::Block(b) => StreamAction::ForwardBlock(b),
        StreamEvent::Transaction(t) => StreamAction::ForwardTransaction(t),
        StreamEvent::OtherUpdate => StreamAction::Skip,
        StreamEvent::Failed => StreamAction::Skip,
        StreamEvent::Ended => StreamAction::Stop,
        StreamEvent::SendFailed => StreamAction::Stop,
    }
}

} // verus!
