use chain_index::history::{
    add_spent_postings, has_posting, history_of, outpoints_of, pairs_of, remove_history_entries,
    update_history,
};
use chain_index::types::{Hash256, OutPoint, SpentUtxo, TxSeen, V};
use chain_index::utxo::UtxoSet;

fn txid(n: u64) -> Hash256 {
    Hash256 { w0: n, w1: n + 1, w2: n + 2, w3: n + 3 }
}

fn outpoint(n: u64, vout: u32) -> OutPoint {
    OutPoint { txid: txid(n), vout }
}

#[test]
fn all_zeros_hash_has_zero_words() {
    assert_eq!(Hash256::all_zeros(), Hash256 { w0: 0, w1: 0, w2: 0, w3: 0 });
}

#[test]
fn utxo_set_insert_get_remove() {
    let mut set = UtxoSet::new();
    assert_eq!(set.get(outpoint(1, 0)), None);
    set.insert(outpoint(1, 0), 5);
    set.insert(outpoint(1, 1), 6);
    set.insert(outpoint(1, 0), 7);
    assert_eq!(set.get(outpoint(1, 0)), Some(7));
    assert_eq!(set.get(outpoint(1, 1)), Some(6));
    assert_eq!(set.entries.len(), 2);
    assert!(set.remove(outpoint(1, 0)));
    assert!(!set.remove(outpoint(1, 0)));
    assert_eq!(set.get(outpoint(1, 0)), None);
    assert_eq!(set.get(outpoint(1, 1)), Some(6));
}

#[test]
fn utxo_set_bulk_operations() {
    let mut set = UtxoSet::new();
    set.insert_utxos(&vec![(outpoint(1, 0), 1), (outpoint(2, 0), 2), (outpoint(3, 0), 3)]);
    let absent = set.remove_utxos(&vec![outpoint(2, 0), outpoint(4, 0), outpoint(2, 0)]);
    assert_eq!(absent, vec![outpoint(4, 0), outpoint(2, 0)]);
    set.remove_utxos_created(&vec![(outpoint(3, 0), 99)]);
    assert_eq!(set.get(outpoint(1, 0)), Some(1));
    assert_eq!(set.get(outpoint(2, 0)), None);
    assert_eq!(set.get(outpoint(3, 0)), None);
}

#[test]
fn spends_give_outpoints_pairs_and_postings() {
    let spent = vec![
        SpentUtxo { outpoint: outpoint(1, 0), script_hash: 10, txid: txid(50), vin: 2 },
        SpentUtxo { outpoint: outpoint(2, 1), script_hash: 20, txid: txid(51), vin: 0 },
    ];
    assert_eq!(outpoints_of(&spent), vec![outpoint(1, 0), outpoint(2, 1)]);
    assert_eq!(pairs_of(&spent), vec![(outpoint(1, 0), 10), (outpoint(2, 1), 20)]);
    let first = (30, TxSeen::new(txid(9), 4, V::Vout(1)));
    let mut postings = vec![first];
    add_spent_postings(&mut postings, &spent, 4);
    assert_eq!(
        postings,
        vec![
            first,
            (10, TxSeen { txid: txid(50), height: 4, v: V::Vin(2) }),
            (20, TxSeen { txid: txid(51), height: 4, v: V::Vin(0) }),
        ]
    );
}

#[test]
fn history_append_project_and_strip() {
    let a = (1, TxSeen::new(txid(1), 0, V::Vout(0)));
    let b = (2, TxSeen::new(txid(1), 0, V::Vout(1)));
    let c = (1, TxSeen::new(txid(2), 1, V::Vin(0)));
    let other_height = (1, TxSeen::new(txid(2), 2, V::Vin(0)));
    let mut history = vec![a];
    update_history(&mut history, &vec![b, c, a]);
    assert_eq!(history, vec![a, b, c, a]);
    assert_eq!(history_of(&history, 1), vec![a.1, c.1, a.1]);
    assert_eq!(history_of(&history, 3), vec![]);
    assert!(has_posting(&history, c));
    assert!(!has_posting(&history, other_height));
    remove_history_entries(&mut history, &vec![a, other_height]);
    assert_eq!(history, vec![b, c]);
    remove_history_entries(&mut history, &vec![]);
    assert_eq!(history, vec![b, c]);
}
