use chain_index::preload::{
    headers, Action, Corruption, Error, Event, Phase, Preload, MAX_HASH_GAP_REPAIR,
};
use chain_index::types::{BlockMeta, Hash256};

fn hash(n: u64) -> Hash256 {
    Hash256 { w0: n, w1: 1, w2: 2, w3: 3 }
}

fn meta(height: u32) -> BlockMeta {
    BlockMeta::new(height, hash(height as u64), 600 * height)
}

#[test]
fn test_preload_detects_hash_gap() {
    let block0 = BlockMeta::new(0, Hash256::all_zeros(), 0);
    let block2 = BlockMeta::new(2, Hash256::all_zeros(), 0);
    let (_, result) = headers(vec![block0, block2], false);
    assert!(matches!(result, Action::Abort(Error::DBCorrupted(_))));
}

#[test]
fn gap_without_client_names_expected_and_found() {
    let (preload, action) = headers(vec![meta(0), meta(2)], false);
    assert_eq!(
        action,
        Action::Abort(Error::DBCorrupted(Corruption::GapWithoutClient { expected: 1, found: 2 }))
    );
    assert_eq!(preload.phase(), Phase::Failed);
    assert_eq!(preload.blocks_hash_ts(), &vec![(hash(0), 0)]);
}

#[test]
fn gap_is_repaired_with_a_client() {
    let (mut preload, action) = headers(vec![meta(0), meta(2)], true);
    assert_eq!(action, Action::FetchBlockHash(1));
    let action = preload.step(Event::BlockHash(Some(hash(77))));
    assert_eq!(action, Action::FetchBlockHeader(hash(77)));
    let action = preload.step(Event::Header(1234));
    assert_eq!(action, Action::Store(BlockMeta::new(1, hash(77), 1234)));
    let action = preload.step(Event::Stored);
    assert_eq!(action, Action::Done(3));
    assert_eq!(preload.phase(), Phase::Done);
    assert_eq!(preload.blocks_hash_ts(), &vec![(hash(0), 0), (hash(77), 1234), (hash(2), 1200)]);
}

#[test]
fn gap_of_several_heights_is_repaired_in_order() {
    let (mut preload, mut action) = headers(vec![meta(3), meta(4)], true);
    let mut stored = Vec::new();
    for height in 0..3u32 {
        assert_eq!(action, Action::FetchBlockHash(height));
        action = preload.step(Event::BlockHash(Some(hash(100 + height as u64))));
        assert_eq!(action, Action::FetchBlockHeader(hash(100 + height as u64)));
        action = preload.step(Event::Header(height));
        match action {
            Action::Store(m) => stored.push(m),
            other => panic!("{:?}", other),
        }
        action = preload.step(Event::Stored);
    }
    assert_eq!(action, Action::Done(5));
    assert_eq!(
        stored,
        vec![
            BlockMeta::new(0, hash(100), 0),
            BlockMeta::new(1, hash(101), 1),
            BlockMeta::new(2, hash(102), 2),
        ]
    );
    assert_eq!(
        preload.blocks_hash_ts(),
        &vec![(hash(100), 0), (hash(101), 1), (hash(102), 2), (hash(3), 1800), (hash(4), 2400)]
    );
}

#[test]
fn gap_longer_than_the_limit_is_not_repaired() {
    let (preload, action) = headers(vec![meta(0), meta(MAX_HASH_GAP_REPAIR + 2)], true);
    assert_eq!(
        action,
        Action::Abort(Error::DBCorrupted(Corruption::GapTooLarge {
            len: 1001,
            first: 1,
            last: 1001
        }))
    );
    assert_eq!(preload.blocks_hash_ts().len(), 1);
}

#[test]
fn gap_of_exactly_the_limit_is_repaired() {
    assert_eq!(MAX_HASH_GAP_REPAIR, 1000);
    let (_, action) = headers(vec![meta(0), meta(1001)], true);
    assert_eq!(action, Action::FetchBlockHash(1));
}

#[test]
fn long_gap_without_client_reports_the_gap() {
    let (_, action) = headers(vec![meta(5000)], false);
    assert_eq!(
        action,
        Action::Abort(Error::DBCorrupted(Corruption::GapWithoutClient { expected: 0, found: 5000 }))
    );
}

#[test]
fn record_below_the_cursor_is_out_of_order() {
    let (preload, action) = headers(vec![meta(0), meta(1), meta(1)], true);
    assert_eq!(action, Action::Abort(Error::DBCorrupted(Corruption::OutOfOrder { height: 1 })));
    assert_eq!(preload.blocks_hash_ts().len(), 2);
}

#[test]
fn record_below_the_cursor_after_a_repair_is_out_of_order() {
    let (mut preload, action) = headers(vec![meta(1), meta(0)], true);
    assert_eq!(action, Action::FetchBlockHash(0));
    preload.step(Event::BlockHash(Some(hash(9))));
    preload.step(Event::Header(5));
    let action = preload.step(Event::Stored);
    assert_eq!(action, Action::Abort(Error::DBCorrupted(Corruption::OutOfOrder { height: 0 })));
    assert_eq!(preload.blocks_hash_ts(), &vec![(hash(9), 5), (hash(1), 600)]);
}

#[test]
fn healthy_records_are_accepted_whole() {
    let (preload, action) = headers(vec![meta(0), meta(1), meta(2)], false);
    assert_eq!(action, Action::Done(3));
    assert_eq!(preload.blocks_hash_ts(), &vec![(hash(0), 0), (hash(1), 600), (hash(2), 1200)]);
}

#[test]
fn no_records_is_done_at_once() {
    let (preload, action) = headers(vec![], false);
    assert_eq!(action, Action::Done(0));
    assert_eq!(preload.phase(), Phase::Done);
}

#[test]
fn unknown_block_hash_aborts() {
    let (mut preload, _) = headers(vec![meta(2)], true);
    let action = preload.step(Event::BlockHash(None));
    assert_eq!(
        action,
        Action::Abort(Error::DBCorrupted(Corruption::MissingBlockHash { height: 0 }))
    );
}

#[test]
fn failed_fetches_and_writes_abort() {
    let (mut preload, _) = headers(vec![meta(2)], true);
    assert_eq!(
        preload.step(Event::Failed),
        Action::Abort(Error::DBCorrupted(Corruption::FetchBlockHash { height: 0 }))
    );

    let (mut preload, _) = headers(vec![meta(2)], true);
    preload.step(Event::BlockHash(Some(hash(8))));
    assert_eq!(
        preload.step(Event::Failed),
        Action::Abort(Error::DBCorrupted(Corruption::FetchBlockHeader { hash: hash(8) }))
    );

    let (mut preload, _) = headers(vec![meta(2)], true);
    preload.step(Event::BlockHash(Some(hash(8))));
    preload.step(Event::Header(1));
    preload.step(Event::Stored);
    preload.step(Event::BlockHash(Some(hash(9))));
    preload.step(Event::Header(2));
    assert_eq!(
        preload.step(Event::Failed),
        Action::Abort(Error::DBCorrupted(Corruption::WriteHashMeta { height: 1 }))
    );
    assert_eq!(preload.blocks_hash_ts(), &vec![(hash(8), 1)]);
}

#[test]
fn event_that_answers_nothing_aborts() {
    let (mut preload, action) = headers(vec![meta(1)], true);
    assert_eq!(action, Action::FetchBlockHash(0));
    assert_eq!(preload.step(Event::Stored), Action::Abort(Error::UnexpectedEvent));
    assert_eq!(preload.phase(), Phase::Failed);
    assert_eq!(preload.step(Event::Begin), Action::Abort(Error::UnexpectedEvent));

    let mut fresh = Preload::new(vec![meta(0)], false);
    assert_eq!(fresh.step(Event::Header(3)), Action::Abort(Error::UnexpectedEvent));
}

#[test]
fn step_begins_a_new_preload() {
    let mut preload = Preload::new(vec![meta(0), meta(1)], false);
    assert_eq!(preload.phase(), Phase::Scanning);
    assert_eq!(preload.step(Event::Begin), Action::Done(2));
}
