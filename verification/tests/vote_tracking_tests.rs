use vote_tracker::vote_tracking::{
    channel_step, process_block, BlockTransaction, BlockUpdate, ChannelAction, ChannelEvent, StopReason,
    VoteReport, VOTE_PROGRAM_ID,
};

fn sig_with_tail(tail: &[u8], len: usize) -> Vec<u8> {
    let mut v = vec![0u8; len - tail.len()];
    v.extend_from_slice(tail);
    v
}

#[test]
fn channel_shutdown_stops() {
    assert!(matches!(channel_step::<u8>(ChannelEvent::Shutdown), ChannelAction::Stop(StopReason::ShutdownRequested)));
}

#[test]
fn channel_message_is_processed() {
    assert!(matches!(channel_step::<u8>(ChannelEvent::Received(4)), ChannelAction::Process(4)));
}

#[test]
fn channel_closed_stops() {
    assert!(matches!(channel_step::<u8>(ChannelEvent::AllClosed), ChannelAction::Stop(StopReason::ChannelsClosed)));
}

#[test]
fn process_block_reports_each_vote_in_order() {
    let hello = [0x04, 0x30, 0x5e, 0x2b, 0x24, 0x73, 0xf0, 0x58];
    let first = sig_with_tail(&hello, 64);
    let block = BlockUpdate {
        transactions: vec![
            BlockTransaction { signature: vec![1], is_vote: false, transaction: Some(vec![vec![9; 64]]) },
            BlockTransaction { signature: vec![2], is_vote: true, transaction: Some(vec![first.clone(), vec![5; 64]]) },
            BlockTransaction { signature: vec![3], is_vote: true, transaction: Some(vec![]) },
            BlockTransaction { signature: vec![4], is_vote: true, transaction: None },
        ],
    };
    let reports = process_block(&block);
    assert_eq!(reports.len(), 3);
    match &reports[0] {
        VoteReport::Signed { signature, base58 } => {
            assert_eq!(signature, &first);
            assert_eq!(base58, &format!("{}he11owor1d", "1".repeat(56)));
        }
        other => panic!("unexpected report {:?}", other),
    }
    assert!(matches!(&reports[1], VoteReport::Unsigned { hash } if hash == &vec![3]));
    assert!(matches!(&reports[2], VoteReport::MissingTransaction { hash } if hash == &vec![4]));
}

#[test]
fn process_block_encodes_only_the_first_64_bytes() {
    let mut long = vec![0u8; 64];
    long.extend_from_slice(&[0xff; 8]);
    let block = BlockUpdate {
        transactions: vec![BlockTransaction { signature: vec![], is_vote: true, transaction: Some(vec![long.clone()]) }],
    };
    let reports = process_block(&block);
    match &reports[0] {
        VoteReport::Signed { signature, base58 } => {
            assert_eq!(signature, &long);
            assert_eq!(base58, &"1".repeat(64));
        }
        other => panic!("unexpected report {:?}", other),
    }
}

#[test]
fn process_block_without_votes_reports_nothing() {
    let block = BlockUpdate {
        transactions: vec![BlockTransaction { signature: vec![1], is_vote: false, transaction: None }],
    };
    assert!(process_block(&block).is_empty());
    assert!(process_block(&BlockUpdate { transactions: vec![] }).is_empty());
}

#[test]
fn process_block_of_two_runs_concatenates_reports() {
    let a = vec![BlockTransaction { signature: vec![1], is_vote: true, transaction: None }];
    let b = vec![
        BlockTransaction { signature: vec![2], is_vote: false, transaction: None },
        BlockTransaction { signature: vec![3], is_vote: true, transaction: Some(vec![]) },
    ];
    let mut both = a.clone();
    both.extend(b.clone());
    let ra = process_block(&BlockUpdate { transactions: a });
    let rb = process_block(&BlockUpdate { transactions: b });
    let rab = process_block(&BlockUpdate { transactions: both });
    assert_eq!(rab.len(), ra.len() + rb.len());
    assert_eq!(format!("{:?}", rab), format!("{:?}", [ra, rb].concat()));
}

#[test]
fn vote_program_id_bytes() {
    assert_eq!(VOTE_PROGRAM_ID.len(), 32);
    assert_eq!(&VOTE_PROGRAM_ID[..4], &[7, 97, 72, 29]);
    assert_eq!(&VOTE_PROGRAM_ID[28..], &[0, 0, 0, 0]);
}
