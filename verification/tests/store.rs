use std::hash::Hasher;

use chain_index::memory::MemoryStore;
use chain_index::store::{Store, StoreError};
use chain_index::types::{BlockMeta, Hash256, OutPoint, SpentUtxo, TxSeen, V};

fn id(n: u64) -> Hash256 {
    Hash256 { w0: n, w1: 0, w2: 0, w3: 0 }
}

fn op(n: u64, vout: u32) -> OutPoint {
    OutPoint { txid: id(n), vout }
}

fn block(height: u32) -> BlockMeta {
    BlockMeta::new(height, id(1000 + height as u64), 7 * height)
}

fn seen(n: u64, height: u32, v: V) -> TxSeen {
    TxSeen::new(id(n), height, v)
}

#[test]
fn new_store_is_empty() {
    let store = MemoryStore::new();
    assert_eq!(store.get_utxos(&[op(1, 0)]).unwrap(), vec![None]);
    assert_eq!(store.get_history(&[5]).unwrap(), vec![Vec::<TxSeen>::new()]);
    assert!(store.iter_hash_ts().is_empty());
}

#[test]
fn get_utxos_of_unknown_outpoint_is_absent() {
    let mut store = MemoryStore::new();
    store.update(&block(0), vec![], vec![], vec![(op(1, 0), 11)]).unwrap();
    let got = store.get_utxos(&[op(1, 1), op(1, 0), op(2, 0)]).unwrap();
    assert_eq!(got, vec![None, Some(11), None]);
}

#[test]
fn utxos_are_created_minus_spent() {
    let mut store = MemoryStore::new();
    store
        .update(&block(0), vec![], vec![], vec![(op(1, 0), 11), (op(1, 1), 12)])
        .unwrap();
    let spend = SpentUtxo { outpoint: op(1, 0), script_hash: 11, txid: id(2), vin: 0 };
    store.update(&block(1), vec![spend], vec![], vec![(op(2, 0), 13)]).unwrap();
    let spend = SpentUtxo { outpoint: op(2, 0), script_hash: 13, txid: id(3), vin: 4 };
    store.update(&block(2), vec![spend], vec![], vec![(op(3, 0), 14)]).unwrap();
    let got = store.get_utxos(&[op(1, 0), op(1, 1), op(2, 0), op(3, 0)]).unwrap();
    assert_eq!(got, vec![None, Some(12), None, Some(14)]);
}

#[test]
fn update_records_history_and_spends() {
    let mut store = MemoryStore::new();
    let created = seen(1, 0, V::Vout(0));
    store.update(&block(0), vec![], vec![(11, created)], vec![(op(1, 0), 11)]).unwrap();
    let spend = SpentUtxo { outpoint: op(1, 0), script_hash: 11, txid: id(2), vin: 3 };
    let paid = seen(2, 1, V::Vout(0));
    let report = store
        .update(&block(1), vec![spend], vec![(12, paid)], vec![(op(2, 0), 12)])
        .unwrap();
    assert!(report.missing_utxos.is_empty());
    assert_eq!(report.dropped_undo, None);
    let got = store.get_history(&[11, 12, 13]).unwrap();
    assert_eq!(got[0], vec![created, seen(2, 1, V::Vin(3))]);
    assert_eq!(got[1], vec![paid]);
    assert_eq!(got[2], vec![]);
}

#[test]
fn history_keeps_order_within_a_script() {
    let mut store = MemoryStore::new();
    let a = seen(1, 0, V::Vout(0));
    let b = seen(2, 0, V::Vout(1));
    let c = seen(3, 0, V::Vout(0));
    store.update(&block(0), vec![], vec![(11, a), (12, b), (11, c)], vec![]).unwrap();
    let got = store.get_history(&[12, 11]).unwrap();
    assert_eq!(got, vec![vec![b], vec![a, c]]);
}

#[test]
fn missing_utxo_is_reported_and_fails_nothing() {
    let mut store = MemoryStore::new();
    let spend = SpentUtxo { outpoint: op(9, 9), script_hash: 40, txid: id(2), vin: 0 };
    let report = store.update(&block(0), vec![spend], vec![], vec![(op(2, 0), 41)]).unwrap();
    assert_eq!(report.missing_utxos, vec![op(9, 9)]);
    assert_eq!(store.get_utxos(&[op(2, 0)]).unwrap(), vec![Some(41)]);
    assert_eq!(store.get_history(&[40]).unwrap(), vec![vec![seen(2, 0, V::Vin(0))]]);
}

#[test]
fn outpoint_spent_twice_is_missing_the_second_time() {
    let mut store = MemoryStore::new();
    store.update(&block(0), vec![], vec![], vec![(op(1, 0), 11)]).unwrap();
    let first = SpentUtxo { outpoint: op(1, 0), script_hash: 11, txid: id(2), vin: 0 };
    let second = SpentUtxo { outpoint: op(1, 0), script_hash: 11, txid: id(3), vin: 0 };
    let report = store.update(&block(1), vec![first, second], vec![], vec![]).unwrap();
    assert_eq!(report.missing_utxos, vec![op(1, 0)]);
}

#[test]
fn created_outpoint_replaces_an_earlier_owner() {
    let mut store = MemoryStore::new();
    store.update(&block(0), vec![], vec![], vec![(op(1, 0), 11)]).unwrap();
    store.update(&block(1), vec![], vec![], vec![(op(1, 0), 12)]).unwrap();
    assert_eq!(store.get_utxos(&[op(1, 0)]).unwrap(), vec![Some(12)]);
}

#[test]
fn update_then_reorg_restores_the_state() {
    let mut store = MemoryStore::new();
    let created = seen(1, 0, V::Vout(0));
    store
        .update(&block(0), vec![], vec![(11, created)], vec![(op(1, 0), 11), (op(1, 1), 12)])
        .unwrap();
    let outpoints = [op(1, 0), op(1, 1), op(2, 0)];
    let scripts = [11, 12, 13];
    let utxos_before = store.get_utxos(&outpoints).unwrap();
    let history_before = store.get_history(&scripts).unwrap();

    let spend = SpentUtxo { outpoint: op(1, 0), script_hash: 11, txid: id(2), vin: 0 };
    store
        .update(&block(1), vec![spend], vec![(13, seen(2, 1, V::Vout(0)))], vec![(op(2, 0), 13)])
        .unwrap();
    assert_eq!(store.get_utxos(&outpoints).unwrap(), vec![None, Some(12), Some(13)]);
    assert_eq!(store.reorg(), Ok(()));

    assert_eq!(store.get_utxos(&outpoints).unwrap(), utxos_before);
    assert_eq!(store.get_history(&scripts).unwrap(), history_before);
    assert_eq!(utxos_before, vec![Some(11), Some(12), None]);
    assert_eq!(history_before, vec![vec![created], vec![], vec![]]);
}

#[test]
fn reorg_is_last_in_first_out() {
    let mut store = MemoryStore::new();
    let outpoints = [op(1, 0), op(2, 0)];
    let scripts = [11, 12];
    let a = seen(1, 0, V::Vout(0));
    store.update(&block(0), vec![], vec![(11, a)], vec![(op(1, 0), 11)]).unwrap();
    let spend = SpentUtxo { outpoint: op(1, 0), script_hash: 11, txid: id(2), vin: 0 };
    let b = seen(2, 1, V::Vout(0));
    store.update(&block(1), vec![spend], vec![(12, b)], vec![(op(2, 0), 12)]).unwrap();

    assert_eq!(store.reorg(), Ok(()));
    assert_eq!(store.get_utxos(&outpoints).unwrap(), vec![Some(11), None]);
    assert_eq!(store.get_history(&scripts).unwrap(), vec![vec![a], vec![]]);

    assert_eq!(store.reorg(), Ok(()));
    assert_eq!(store.get_utxos(&outpoints).unwrap(), vec![None, None]);
    assert_eq!(store.get_history(&scripts).unwrap(), vec![Vec::<TxSeen>::new(), vec![]]);
}

#[test]
fn reorg_of_an_empty_store_is_the_unrecoverable_case() {
    let mut store = MemoryStore::new();
    assert_eq!(store.reorg(), Err(StoreError::ReorgDepthExceeded));
    assert_eq!(store.get_utxos(&[op(1, 0)]).unwrap(), vec![None]);
}

#[test]
fn undo_log_drops_the_oldest_record() {
    let mut store = MemoryStore::with_max_depth(2);
    let mut dropped = Vec::new();
    for height in 0..4u32 {
        let created = vec![(op(height as u64, 0), height as u64)];
        let report = store.update(&block(height), vec![], vec![], created).unwrap();
        dropped.push(report.dropped_undo);
    }
    assert_eq!(dropped, vec![None, None, Some(0), Some(1)]);
    assert_eq!(store.reorg(), Ok(()));
    assert_eq!(store.reorg(), Ok(()));
    assert_eq!(store.reorg(), Err(StoreError::ReorgDepthExceeded));
    let got = store.get_utxos(&[op(0, 0), op(1, 0), op(2, 0), op(3, 0)]).unwrap();
    assert_eq!(got, vec![Some(0), Some(1), None, None]);
}

#[test]
fn store_without_undo_depth_cannot_reorg() {
    let mut store = MemoryStore::with_max_depth(0);
    let report = store.update(&block(5), vec![], vec![], vec![(op(1, 0), 11)]).unwrap();
    assert_eq!(report.dropped_undo, Some(5));
    assert_eq!(store.reorg(), Err(StoreError::ReorgDepthExceeded));
    assert_eq!(store.get_utxos(&[op(1, 0)]).unwrap(), vec![Some(11)]);
}

#[test]
fn default_store_retains_one_hundred_blocks() {
    let mut store = MemoryStore::new();
    let mut dropped: u32 = 0;
    for height in 0..101u32 {
        let report = store.update(&block(height), vec![], vec![], vec![]).unwrap();
        if report.dropped_undo.is_some() {
            dropped += 1;
        }
    }
    assert_eq!(dropped, 1);
    for _ in 0..100 {
        assert_eq!(store.reorg(), Ok(()));
    }
    assert_eq!(store.reorg(), Err(StoreError::ReorgDepthExceeded));
}

#[test]
fn reorg_removes_only_matching_history() {
    let mut store = MemoryStore::new();
    let other = seen(7, 1, V::Vout(0));
    store.update(&block(0), vec![], vec![(11, other)], vec![]).unwrap();
    let added = seen(8, 1, V::Vout(0));
    let same_tx_other_direction = seen(8, 1, V::Vin(0));
    store
        .update(&block(1), vec![], vec![(11, added), (12, same_tx_other_direction)], vec![])
        .unwrap();
    assert_eq!(store.get_history(&[11]).unwrap(), vec![vec![other, added]]);
    assert_eq!(store.reorg(), Ok(()));
    assert_eq!(store.get_history(&[11, 12]).unwrap(), vec![vec![other], vec![]]);
}

#[test]
fn reorg_removes_an_earlier_entry_that_matches() {
    let mut store = MemoryStore::new();
    let entry = seen(7, 1, V::Vout(0));
    store.update(&block(0), vec![], vec![(11, entry)], vec![]).unwrap();
    store.update(&block(1), vec![], vec![(11, entry)], vec![]).unwrap();
    assert_eq!(store.get_history(&[11]).unwrap(), vec![vec![entry, entry]]);
    assert_eq!(store.reorg(), Ok(()));
    assert_eq!(store.get_history(&[11]).unwrap(), vec![Vec::<TxSeen>::new()]);
}

#[test]
fn reorg_restores_a_spend_that_was_missing() {
    let mut store = MemoryStore::new();
    let spend = SpentUtxo { outpoint: op(9, 9), script_hash: 40, txid: id(2), vin: 0 };
    store.update(&block(0), vec![spend], vec![], vec![]).unwrap();
    assert_eq!(store.reorg(), Ok(()));
    assert_eq!(store.get_utxos(&[op(9, 9)]).unwrap(), vec![Some(40)]);
}

#[test]
fn hash_is_the_fx_digest_of_the_script() {
    let store = MemoryStore::new();
    let script: [u8; 11] = [0, 20, 1, 2, 3, 4, 5, 6, 7, 8, 9];
    let mut hasher = fxhash::FxHasher::default();
    hasher.write(&script);
    let expected = hasher.finish();
    assert_eq!(store.hash(&script), expected);
    assert_eq!(store.hash(&script), store.hash(&script));
    assert_ne!(store.hash(&script), store.hash(&script[1..]));
}

#[test]
fn put_hash_ts_keeps_nothing() {
    let mut store = MemoryStore::new();
    assert_eq!(store.put_hash_ts(&block(0)), Ok(()));
    store.ibd_finished();
    assert!(store.iter_hash_ts().is_empty());
}
