use vote_tracker::config::Config;
use vote_tracker::grpc::{
    create_grpc_client, grpc_client_subscribe_request, stream_step, CommitmentLevel, GrpcClientError,
    StreamAction, StreamEvent, FINALIZED_BLOCKS_FILTER, VOTE_TRANSACTIONS_FILTER,
};

fn config(url: &str, token: &str, account: &str) -> Config {
    Config::new(token.to_string(), url.to_string(), account.to_string())
}

#[test]
fn subscription_follows_the_vote_account() {
    let r = grpc_client_subscribe_request(&config("https://x:1", "t", "Acc1"));
    assert_eq!(r.transactions.len(), 1);
    let (name, f) = &r.transactions[0];
    assert_eq!(name, "vote_transactions");
    assert_eq!(name, VOTE_TRANSACTIONS_FILTER);
    assert_eq!(f.vote, Some(true));
    assert_eq!(f.failed, Some(true));
    assert_eq!(f.signature, None);
    assert_eq!(f.account_include, vec!["Acc1".to_string()]);
    assert!(f.account_exclude.is_empty());
    assert!(f.account_required.is_empty());
    assert_eq!(r.blocks.len(), 1);
    let (bname, b) = &r.blocks[0];
    assert_eq!(bname, "finalized_blocks");
    assert_eq!(bname, FINALIZED_BLOCKS_FILTER);
    assert_eq!(b.account_include, vec!["Acc1".to_string()]);
    assert_eq!(b.include_transactions, Some(true));
    assert_eq!(b.include_accounts, Some(false));
    assert_eq!(b.include_entries, Some(false));
    assert_eq!(r.commitment, Some(CommitmentLevel::Finalized));
}

#[test]
fn client_with_bad_endpoint_fails_at_endpoint() {
    let r = create_grpc_client(&config("not a valid uri", "token", "a"));
    assert!(matches!(r, Err(GrpcClientError::Endpoint(_))));
}

#[test]
fn client_with_bad_token_fails_at_token() {
    let r = create_grpc_client(&config("https://grpc.example.com:443", "bad\ntoken", "a"));
    assert!(matches!(r, Err(GrpcClientError::XToken(_))));
}

#[test]
fn client_with_good_settings_passes_endpoint_and_token() {
    let r = create_grpc_client(&config("https://grpc.example.com:443", "token", "a"));
    assert!(matches!(r, Ok(_) | Err(GrpcClientError::Tls(_))));
}

#[test]
fn stream_forwards_blocks_and_transactions() {
    assert!(matches!(stream_step::<u8, u16>(StreamEvent::Block(7)), StreamAction::ForwardBlock(7)));
    assert!(matches!(stream_step::<u8, u16>(StreamEvent::Transaction(9)), StreamAction::ForwardTransaction(9)));
}

#[test]
fn stream_skips_other_updates_and_errors() {
    assert!(matches!(stream_step::<u8, u16>(StreamEvent::OtherUpdate), StreamAction::Skip));
    assert!(matches!(stream_step::<u8, u16>(StreamEvent::Failed), StreamAction::Skip));
}

#[test]
fn stream_stops_at_end_or_failed_send() {
    assert!(matches!(stream_step::<u8, u16>(StreamEvent::Ended), StreamAction::Stop));
    assert!(matches!(stream_step::<u8, u16>(StreamEvent::SendFailed), StreamAction::Stop));
}

#[test]
fn client_token_with_delete_fails_at_token() {
    let r = create_grpc_client(&config("https://grpc.example.com:443", "tok\u{7f}en", "a"));
    assert!(matches!(r, Err(GrpcClientError::XToken(_))));
}

#[test]
fn client_token_with_tab_or_non_ascii_passes_token() {
    for token in ["tok\ten", "tökén"] {
        let r = create_grpc_client(&config("https://grpc.example.com:443", token, "a"));
        assert!(matches!(r, Ok(_) | Err(GrpcClientError::Tls(_))));
    }
}

#[test]
fn client_with_empty_endpoint_fails_at_endpoint() {
    let r = create_grpc_client(&config("", "token", "a"));
    assert!(matches!(r, Err(GrpcClientError::Endpoint(_))));
}
