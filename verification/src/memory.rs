//! The in-memory store: the unspent-output set, the history index and a
//! bounded log of undo records, one per applied block.

use std::collections::VecDeque;
use std::hash::Hasher;
use vstd::prelude::*;
use crate::history::{
    add_spent_postings, history_of, outpoints_of, pairs_of, remove_history_entries, update_history,
};
use crate::store::{
    dropped_by_push, histories_match, owners_match, push_bounded, Store, StoreError, StoreState,
    UndoRecord, UpdateReport,
};
use crate::types::{BlockMeta, Height, OutPoint, Posting, ScriptHash, SpentUtxo, TxSeen, Utxo};
use crate::utxo::UtxoSet;

verus! {

/// Number of undo records that a store made by `MemoryStore::new` retains.
pub const REORG_BUFFER_MAX_DEPTH: usize = 100;

/// What one applied block changed, kept so that the block can be undone.
#[derive(Debug)]
pub struct ReorgData {
    pub height: Height,
    pub spent: Vec<Utxo>,
    pub history: Vec<Posting>,
    pub utxos_created: Vec<Utxo>,
}

impl View for ReorgData {
    type V = UndoRecord;

    open spec fn view(&self) -> UndoRecord {
        UndoRecord {
            height: self.height,
            spent: self.spent@,
            history: self.history@,
            created: self.utxos_created@,
        }
    }
}

/// The digest that `fxhash::FxHasher` gives to a sequence of bytes on the
/// target that the library is built for: the hasher takes the bytes in
/// machine words, in the machine's byte order, and keeps no seed or other
/// state between digests.
pub uninterp spec fn fx_digest(script: Seq<u8>) -> u64;

/// Feeds the bytes in one `write` to an `fxhash::FxHasher` in its default
/// state and reads the digest with `finish`. The contract claims only that
/// the digest is a function of the bytes.
#[verifier::external_body]
fn fx_hash(script: &[u8]) -> (r: u64)
    ensures
        r == fx_digest(script@),
{
    let mut hasher = fxhash::FxHasher::default();
    hasher.write(script);
    hasher.finish()
}

/// A store that keeps the whole index in memory and nothing on disk.
#[derive(Debug)]
pub struct MemoryStore {
    utxos: UtxoSet,
    history: Vec<Posting>,
    reorg_data: VecDeque<ReorgData>,
    max_depth: usize,
}

impl View for MemoryStore {
    type V = StoreState;

    closed spec fn view(&self) -> StoreState {
        StoreState {
            utxos: self.utxos@,
            history: self.history@,
            undo: self.reorg_data@.map_values(|r: ReorgData| r@),
            max_depth: self.max_depth as nat,
        }
    }
}

impl Store for MemoryStore {
    open spec fn state(&self) -> StoreState {
        self@
    }

    open spec fn valid(&self) -> bool {
        self.wf()
    }

    /// Fast, unsalted and not cryptographic: the same for every store of
    /// this kind.
    fn hash(&self, script: &[u8]) -> (r: ScriptHash)
        ensures
            r == fx_digest(script@),
    {
        fx_hash(script)
    }

    /// This store persists no block records.
    fn iter_hash_ts(&self) -> (r: Vec<BlockMeta>)
        ensures
            r@ == Seq::<BlockMeta>::empty(),
    {
        Vec::new()
    }

    fn get_utxos(&self, outpoints: &[OutPoint]) -> (r: Result<Vec<Option<ScriptHash>>, StoreError>)
        ensures
            r is Ok,
    {
        let mut result: Vec<Option<ScriptHash>> = Vec::with_capacity(outpoints.len());
        let mut i: usize = 0;
        while i < outpoints.len()
            invariant
                self.wf(),
                i <= outpoints@.len(),
                owners_match(self@.utxos, outpoints@.take(i as int), result@),
            decreases outpoints@.len() - i,
        {
            result.push(self.utxos.get(outpoints[i]));
            i += 1;
        }
        assert(outpoints@.take(i as int) == outpoints@);
        Ok(result)
    }

    fn get_history(&self, scripts: &[ScriptHash]) -> (r: Result<Vec<Vec<TxSeen>>, StoreError>)
        ensures
            r is Ok,
    {
        let mut result: Vec<Vec<TxSeen>> = Vec::with_capacity(scripts.len());
        let mut i: usize = 0;
        while i < scripts.len()
            invariant
                i <= scripts@.len(),
                histories_match(self@.history, scripts@.take(i as int), result@),
            decreases scripts@.len() - i,
        {
            result.push(history_of(&self.history, scripts[i]));
            i += 1;
        }
        assert(scripts@.take(i as int) == scripts@);
        Ok(result)
    }

    fn update(
        &mut self,
        block_meta: &BlockMeta,
        utxo_spent: Vec<SpentUtxo>,
        history_map: Vec<Posting>,
        utxo_created: Vec<Utxo>,
    ) -> (r: Result<UpdateReport, StoreError>)
        ensures
            r is Ok,
    {
        let mut history_map = history_map;
        let only_outpoints = outpoints_of(&utxo_spent);
        let missing_utxos = self.utxos.remove_utxos(&only_outpoints);
        add_spent_postings(&mut history_map, &utxo_spent, block_meta.height());
        update_history(&mut self.history, &history_map);
        self.utxos.insert_utxos(&utxo_created);
        let dropped_undo = self.push_reorg_data(
            ReorgData {
                height: block_meta.height(),
                spent: pairs_of(&utxo_spent),
                history: history_map,
                utxos_created: utxo_created,
            },
        );
        Ok(UpdateReport { missing_utxos, dropped_undo })
    }

    fn reorg(&mut self) -> (r: Result<(), StoreError>)
        ensures
            old(self).state().undo.len() > 0 ==> r is Ok,
    {
        match self.pop_reorg_data() {
            Some(reorg_data) => {
                self.utxos.insert_utxos(&reorg_data.spent);
                self.utxos.remove_utxos_created(&reorg_data.utxos_created);
                remove_history_entries(&mut self.history, &reorg_data.history);
                Ok(())
            },
            None => Err(StoreError::ReorgDepthExceeded),
        }
    }

    /// This store ignores it.
    fn ibd_finished(&self) {
    }

    /// This store keeps nothing.
    fn put_hash_ts(&mut self, meta: &BlockMeta) -> (r: Result<(), StoreError>)
        ensures
            r is Ok,
    {
        self.write_hash_ts(meta)
    }
}

impl MemoryStore {
    /// No outpoint is held twice, and the undo log is within its bound.
    pub closed spec fn wf(&self) -> bool {
        &&& self.utxos.wf()
        &&& self.reorg_data@.len() <= self.max_depth
    }

    /// A well-formed store holds no more undo records than its bound.
    pub proof fn lemma_undo_bounded(&self)
        requires
            self.wf(),
        ensures
            self@.undo.len() <= self@.max_depth,
    {
    }

    /// An empty store that retains `REORG_BUFFER_MAX_DEPTH` undo records.
    pub fn new() -> (r: Self)
        ensures
            r.wf(),
            r@.utxos == Map::<OutPoint, ScriptHash>::empty(),
            r@.history == Seq::<Posting>::empty(),
            r@.undo == Seq::<UndoRecord>::empty(),
            r@.max_depth == REORG_BUFFER_MAX_DEPTH,
    {
        Self::with_max_depth(REORG_BUFFER_MAX_DEPTH)
    }

    /// An empty store that retains `max_depth` undo records.
    pub fn with_max_depth(max_depth: usize) -> (r: Self)
        ensures
            r.wf(),
            r@.utxos == Map::<OutPoint, ScriptHash>::empty(),
            r@.history == Seq::<Posting>::empty(),
            r@.undo == Seq::<UndoRecord>::empty(),
            r@.max_depth == max_depth,
    {
        let r = MemoryStore {
            utxos: UtxoSet::new(),
            history: Vec::new(),
            reorg_data: VecDeque::new(),
            max_depth,
        };
        assert(r@.undo =~= Seq::<UndoRecord>::empty());
        r
    }

    fn write_hash_ts(&self, _meta: &BlockMeta) -> (r: Result<(), StoreError>)
        ensures
            r is Ok,
    {
        Ok(())
    }

    /// Pushes an undo record; returns the height of the record dropped to
    /// make room, if one was.
    fn push_reorg_data(&mut self, data: ReorgData) -> (dropped: Option<Height>)
        requires
            old(self).wf(),
        ensures
            final(self).wf(),
            final(self)@.utxos == old(self)@.utxos,
            final(self)@.history == old(self)@.history,
            final(self)@.max_depth == old(self)@.max_depth,
            final(self)@.undo == push_bounded(old(self)@.undo, data@, old(self)@.max_depth),
            dropped == dropped_by_push(old(self)@.undo, data@, old(self)@.max_depth),
    {
        let ghost record = data@;
        self.reorg_data.push_back(data);
        if self.reorg_data.len() > self.max_depth {
            match self.reorg_data.pop_front() {
                Some(oldest) => {
                    assert(self@.undo =~= push_bounded(old(self)@.undo, record, old(self)@.max_depth));
                    Some(oldest.height)
                },
                None => None,
            }
        } else {
            assert(self@.undo =~= push_bounded(old(self)@.undo, record, old(self)@.max_depth));
            None
        }
    }

    /// Takes the most recent undo record, if there is one.
    fn pop_reorg_data(&mut self) -> (r: Option<ReorgData>)
        requires
            old(self).wf(),
        ensures
            final(self).wf(),
            final(self)@.utxos == old(self)@.utxos,
            final(self)@.history == old(self)@.history,
            final(self)@.max_depth == old(self)@.max_depth,
            match r {
                Some(data) => old(self)@.undo.len() > 0 && data@ == old(self)@.undo.last()
                    && final(self)@.undo == old(self)@.undo.drop_last(),
                None => old(self)@.undo.len() == 0 && final(self)@ == old(self)@,
            },
    {
        let r = self.reorg_data.pop_back();
        proof {
            if r is Some {
                assert(self@.undo =~= old(self)@.undo.drop_last());
            }
        }
        r
    }
}

} // verus!
