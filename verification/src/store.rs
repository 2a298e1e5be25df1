//! What every backing store offers, and what its operations do to the
//! index, stated over the store as a mathematical value.

use vstd::prelude::*;
use crate::history::{project, spent_outpoints, spent_pairs, spent_postings, strip};
use crate::types::{BlockMeta, Height, OutPoint, Posting, ScriptHash, SpentUtxo, TxSeen, Utxo};
use crate::utxo::{insert_all, keys_of, missing, remove_all};

verus! {

/// What a store can fail with.
#[derive(Clone, Copy, Debug, PartialEq, Eq, Structural)]
pub enum StoreError {
    /// A block was to be undone of which the store holds no undo record. The
    /// index can no longer be shown consistent: stop and index anew.
    ReorgDepthExceeded,
    /// The backing store failed to read or to write.
    Backend,
}

/// An undo record as a mathematical value.
pub struct UndoRecord {
    pub height: Height,
    /// The outputs that the block consumed, each with its owner.
    pub spent: Seq<Utxo>,
    /// The postings that the block added.
    pub history: Seq<Posting>,
    /// The outputs that the block created.
    pub created: Seq<Utxo>,
}

/// A store as a mathematical value.
pub struct StoreState {
    /// The unspent outputs, each with the script that owns it.
    pub utxos: Map<OutPoint, ScriptHash>,
    /// Every recorded appearance of a script, in the order of recording.
    pub history: Seq<Posting>,
    /// The undo records, oldest first.
    pub undo: Seq<UndoRecord>,
    /// How many undo records are retained.
    pub max_depth: nat,
}

/// The undo log after `record` was pushed: the oldest record leaves where
/// the log would otherwise grow beyond `max_depth`.
pub open spec fn push_bounded(undo: Seq<UndoRecord>, record: UndoRecord, max_depth: nat) -> Seq<
    UndoRecord,
> {
    if undo.len() + 1 > max_depth {
        undo.push(record).subrange(1, undo.len() as int + 1)
    } else {
        undo.push(record)
    }
}

/// The height of the record that a push drops, if it drops one.
pub open spec fn dropped_by_push(undo: Seq<UndoRecord>, record: UndoRecord, max_depth: nat) -> Option<
    Height,
> {
    if undo.len() + 1 > max_depth {
        Some(undo.push(record)[0].height)
    } else {
        None
    }
}

/// The postings that one block adds: those handed in, then one for each spend.
pub open spec fn block_postings(
    height: Height,
    spent: Seq<SpentUtxo>,
    additions: Seq<Posting>,
) -> Seq<Posting> {
    additions + spent_postings(spent, height)
}

/// The undo record of one block.
pub open spec fn block_record(
    height: Height,
    spent: Seq<SpentUtxo>,
    additions: Seq<Posting>,
    created: Seq<Utxo>,
) -> UndoRecord {
    UndoRecord {
        height,
        spent: spent_pairs(spent),
        history: block_postings(height, spent, additions),
        created,
    }
}

/// The store after one block was applied: the spent outputs leave the
/// unspent set, the created ones enter it, the block's postings are appended
/// to the history, and the block's undo record is pushed.
pub open spec fn apply_block(
    s: StoreState,
    height: Height,
    spent: Seq<SpentUtxo>,
    additions: Seq<Posting>,
    created: Seq<Utxo>,
) -> StoreState {
    StoreState {
        utxos: insert_all(remove_all(s.utxos, spent_outpoints(spent)), created),
        history: s.history + block_postings(height, spent, additions),
        undo: push_bounded(s.undo, block_record(height, spent, additions, created), s.max_depth),
        max_depth: s.max_depth,
    }
}

/// The store after its most recent undo record was taken and inverted: the
/// outputs that the block consumed are unspent again, those it created are
/// gone, and so are the postings that match one it added.
pub open spec fn undo_block(s: StoreState) -> StoreState
    recommends
        s.undo.len() > 0,
{
    let record = s.undo.last();
    StoreState {
        utxos: remove_all(insert_all(s.utxos, record.spent), keys_of(record.created)),
        history: strip(s.history, record.history),
        undo: s.undo.drop_last(),
        max_depth: s.max_depth,
    }
}

/// What `update` reports besides its effect on the store: anomalies that do
/// not stop the block from being applied.
#[derive(Debug)]
pub struct UpdateReport {
    /// Spent outpoints that were not in the unspent set.
    pub missing_utxos: Vec<OutPoint>,
    /// Height of the undo record that was dropped to make room, if one was.
    pub dropped_undo: Option<Height>,
}

/// For each outpoint, in order, its owner in `utxos` if it has one.
pub open spec fn owners_match(
    utxos: Map<OutPoint, ScriptHash>,
    outpoints: Seq<OutPoint>,
    owners: Seq<Option<ScriptHash>>,
) -> bool {
    &&& owners.len() == outpoints.len()
    &&& forall|i: int|
        0 <= i < outpoints.len() ==> #[trigger] owners[i] == (if utxos.contains_key(outpoints[i]) {
            Some(utxos[outpoints[i]])
        } else {
            None
        })
}

/// For each script, in order, the entries that `history` holds for it.
pub open spec fn histories_match(
    history: Seq<Posting>,
    scripts: Seq<ScriptHash>,
    found: Seq<Vec<TxSeen>>,
) -> bool {
    &&& found.len() == scripts.len()
    &&& forall|i: int|
        0 <= i < scripts.len() ==> (#[trigger] found[i])@ == project(history, scripts[i])
}

/// The operations of a backing store. A store that keeps its data outside
/// the process may fail with `StoreError::Backend`; what it returns when it
/// succeeds, and what it then has done to the index, is the same for all.
pub trait Store {
    /// The index that the store holds.
    spec fn state(&self) -> StoreState;

    /// The store's own invariant.
    spec fn valid(&self) -> bool;

    /// Digest of a script. It belongs to the store: two stores may give
    /// different digests to one script.
    fn hash(&self, script: &[u8]) -> ScriptHash;

    /// The persisted block records, by ascending height.
    fn iter_hash_ts(&self) -> Vec<BlockMeta>;

    /// For each outpoint, in order, the script that owns it if it is
    /// unspent. An outpoint that is not there is no failure.
    fn get_utxos(&self, outpoints: &[OutPoint]) -> (r: Result<Vec<Option<ScriptHash>>, StoreError>)
        requires
            self.valid(),
        ensures
            r is Ok ==> owners_match(self.state().utxos, outpoints@, r->Ok_0@),
            r is Err ==> r->Err_0 is Backend,
    ;

    /// For each script, in order, the entries recorded for it.
    fn get_history(&self, scripts: &[ScriptHash]) -> (r: Result<Vec<Vec<TxSeen>>, StoreError>)
        requires
            self.valid(),
        ensures
            r is Ok ==> histories_match(self.state().history, scripts@, r->Ok_0@),
            r is Err ==> r->Err_0 is Backend,
    ;

    /// Applies one block: removes the spent outputs, records a posting for
    /// each spend besides those of `history_map`, inserts the created
    /// outputs, and pushes the block's undo record. A spent output that was
    /// not there, and an undo record dropped to make room, are reported and
    /// fail nothing.
    fn update(
        &mut self,
        block_meta: &BlockMeta,
        utxo_spent: Vec<SpentUtxo>,
        history_map: Vec<Posting>,
        utxo_created: Vec<Utxo>,
    ) -> (r: Result<UpdateReport, StoreError>)
        requires
            old(self).valid(),
        ensures
            final(self).valid(),
            r is Ok ==> final(self).state() == apply_block(
                old(self).state(),
                block_meta.height,
                utxo_spent@,
                history_map@,
                utxo_created@,
            ),
            r is Ok ==> r->Ok_0.missing_utxos@ == missing(
                old(self).state().utxos,
                spent_outpoints(utxo_spent@),
            ),
            r is Ok ==> r->Ok_0.dropped_undo == dropped_by_push(
                old(self).state().undo,
                block_record(block_meta.height, utxo_spent@, history_map@, utxo_created@),
                old(self).state().max_depth,
            ),
            r is Err ==> r->Err_0 is Backend,
    ;

    /// Undoes the most recently applied block that is still in the undo
    /// log. With an empty log nothing changes and
    /// `StoreError::ReorgDepthExceeded` is returned: the caller is to stop.
    fn reorg(&mut self) -> (r: Result<(), StoreError>)
        requires
            old(self).valid(),
        ensures
            final(self).valid(),
            r is Ok ==> old(self).state().undo.len() > 0 && final(self).state() == undo_block(
                old(self).state(),
            ),
            old(self).state().undo.len() == 0 ==> r == Err::<(), StoreError>(
                StoreError::ReorgDepthExceeded,
            ) && final(self).state() == old(self).state(),
            old(self).state().undo.len() > 0 && r is Err ==> r->Err_0 is Backend,
    ;

    /// Told once, when the initial sync is complete.
    fn ibd_finished(&self);

    /// Records one block's hash and time for a later preload. The index is
    /// left as it is.
    fn put_hash_ts(&mut self, meta: &BlockMeta) -> (r: Result<(), StoreError>)
        requires
            old(self).valid(),
        ensures
            final(self).valid(),
            final(self).state() == old(self).state(),
            r is Err ==> r->Err_0 is Backend,
    ;
}

} // verus!
