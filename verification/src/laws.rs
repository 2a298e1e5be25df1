//! What holds of the store and of the preload over several operations.

use vstd::prelude::*;
use crate::history::{
    lemma_project_concat, lemma_strip_concat, lemma_strip_everything, lemma_strip_nothing, project,
    spent_outpoints, spent_pairs, spent_postings, strip,
};
use crate::store::{
    apply_block, block_postings, block_record, push_bounded, undo_block, StoreState, UndoRecord,
};
use crate::preload::{
    accept, initial, scan, state_wf, step, Action, Corruption, Error, Event, Phase, PreloadState,
    MAX_HASH_GAP_REPAIR,
};
use crate::types::{BlockMeta, Height, OutPoint, Posting, ScriptHash, SpentUtxo, Utxo};
use crate::utxo::{
    binds, insert_all, keys_of, lemma_insert_all, lemma_keys_of_binds, lemma_remove_all, missing,
    remove_all,
};

verus! {

/// Every spent output is unspent in `utxos` and owned by the script that the
/// spend names.
pub open spec fn spends_known(utxos: Map<OutPoint, ScriptHash>, spent: Seq<SpentUtxo>) -> bool {
    forall|i: int|
        0 <= i < spent.len() ==> utxos.contains_key((#[trigger] spent[i]).outpoint)
            && utxos[spent[i].outpoint] == spent[i].script_hash
}

/// No created output is in `utxos` already.
pub open spec fn creates_fresh(utxos: Map<OutPoint, ScriptHash>, created: Seq<Utxo>) -> bool {
    forall|j: int| 0 <= j < created.len() ==> !utxos.contains_key((#[trigger] created[j]).0)
}

/// No posting of `history` is one that the block adds.
pub open spec fn postings_fresh(history: Seq<Posting>, added: Seq<Posting>) -> bool {
    forall|i: int| 0 <= i < history.len() ==> !added.contains(#[trigger] history[i])
}

/// A block can be undone exactly from `s`: it spends known outputs, creates
/// fresh ones and adds fresh postings.
pub open spec fn invertible(
    s: StoreState,
    height: Height,
    spent: Seq<SpentUtxo>,
    additions: Seq<Posting>,
    created: Seq<Utxo>,
) -> bool {
    &&& spends_known(s.utxos, spent)
    &&& creates_fresh(s.utxos, created)
    &&& postings_fresh(s.history, block_postings(height, spent, additions))
}

/// Restoring the spent outputs and removing the created ones undoes the
/// removal of the spent outputs and the insertion of the created ones.
pub proof fn lemma_utxos_round_trip(
    u: Map<OutPoint, ScriptHash>,
    spent: Seq<SpentUtxo>,
    created: Seq<Utxo>,
)
    requires
        spends_known(u, spent),
        creates_fresh(u, created),
    ensures
        remove_all(
            insert_all(insert_all(remove_all(u, spent_outpoints(spent)), created), spent_pairs(spent)),
            keys_of(created),
        ) == u,
{
    let so = spent_outpoints(spent);
    let sp = spent_pairs(spent);
    let a = remove_all(u, so);
    let b = insert_all(a, created);
    let c = insert_all(b, sp);
    let d = remove_all(c, keys_of(created));
    assert forall|k: OutPoint|
        (#[trigger] d.dom().contains(k) <==> u.dom().contains(k)) && (d.dom().contains(k) ==> d[k]
            == u[k]) by {
        lemma_remove_all(u, so, k);
        lemma_insert_all(a, created, k);
        lemma_insert_all(b, sp, k);
        lemma_remove_all(c, keys_of(created), k);
        lemma_keys_of_binds(created, k);
        if binds(created, k) {
            let j = choose|j: int| 0 <= j < created.len() && (#[trigger] created[j]).0 == k;
            assert(!u.contains_key(created[j].0));
        } else if binds(sp, k) {
            let j = choose|j: int|
                0 <= j < sp.len() && (#[trigger] sp[j]).0 == k && insert_all(b, sp)[k] == sp[j].1;
            assert(spent[j].outpoint == k);
        } else {
            if so.contains(k) {
                let i = choose|i: int| 0 <= i < so.len() && so[i] == k;
                assert(sp[i].0 == k);
            }
        }
    }
    assert(d =~= u);
}

/// Stripping the postings that a block added undoes their addition, where
/// none of the earlier postings is one of them.
pub proof fn lemma_history_round_trip(history: Seq<Posting>, added: Seq<Posting>)
    requires
        postings_fresh(history, added),
    ensures
        strip(history + added, added) == history,
{
    lemma_strip_concat(history, added, added);
    lemma_strip_nothing(history, added);
    assert forall|i: int| 0 <= i < added.len() implies added.contains(#[trigger] added[i]) by {}
    lemma_strip_everything(added, added);
    assert(history + Seq::<Posting>::empty() == history);
}

/// The undo log keeps the most recent records, as many as its bound allows.
pub proof fn law_undo_log_keeps_newest(undo: Seq<UndoRecord>, record: UndoRecord, max_depth: nat)
    requires
        undo.len() <= max_depth,
    ensures
        push_bounded(undo, record, max_depth).len() == if undo.len() < max_depth {
            undo.len() + 1
        } else {
            max_depth
        },
        forall|i: int|
            0 <= i < push_bounded(undo, record, max_depth).len() ==> #[trigger] push_bounded(
                undo,
                record,
                max_depth,
            )[i] == undo.push(record)[i + undo.len() + 1 - push_bounded(undo, record, max_depth).len()],
        max_depth >= 1 ==> push_bounded(undo, record, max_depth).len() >= 1 && push_bounded(
            undo,
            record,
            max_depth,
        ).last() == record,
{
}

/// A block applied and undone at once leaves the unspent set and the history
/// as they were, where the store retains at least one undo record and the
/// block can be undone exactly. Of the undo log only the record that the
/// push may have dropped is gone.
pub proof fn law_update_then_reorg(
    s: StoreState,
    height: Height,
    spent: Seq<SpentUtxo>,
    additions: Seq<Posting>,
    created: Seq<Utxo>,
)
    requires
        s.undo.len() <= s.max_depth,
        s.max_depth >= 1,
        invertible(s, height, spent, additions, created),
    ensures
        undo_block(apply_block(s, height, spent, additions, created)).utxos == s.utxos,
        undo_block(apply_block(s, height, spent, additions, created)).history == s.history,
        undo_block(apply_block(s, height, spent, additions, created)).undo == if s.undo.len()
            < s.max_depth {
            s.undo
        } else {
            s.undo.subrange(1, s.undo.len() as int)
        },
{
    let record = block_record(height, spent, additions, created);
    law_undo_log_keeps_newest(s.undo, record, s.max_depth);
    lemma_utxos_round_trip(s.utxos, spent, created);
    lemma_history_round_trip(s.history, block_postings(height, spent, additions));
    let t = undo_block(apply_block(s, height, spent, additions, created));
    if s.undo.len() < s.max_depth {
        assert(t.undo =~= s.undo);
    } else {
        assert(t.undo =~= s.undo.subrange(1, s.undo.len() as int));
    }
}

/// Undoing is last in, first out: after two blocks were applied, the first
/// undo takes back the second block, the second undo the first, and the
/// unspent set and the history are as if neither had been applied. The store
/// retains at least two undo records, and each block can be undone exactly
/// from the state that it was applied to.
pub proof fn law_reorg_is_lifo(
    s: StoreState,
    height_a: Height,
    spent_a: Seq<SpentUtxo>,
    additions_a: Seq<Posting>,
    created_a: Seq<Utxo>,
    height_b: Height,
    spent_b: Seq<SpentUtxo>,
    additions_b: Seq<Posting>,
    created_b: Seq<Utxo>,
)
    requires
        s.undo.len() <= s.max_depth,
        s.max_depth >= 2,
        invertible(s, height_a, spent_a, additions_a, created_a),
        invertible(
            apply_block(s, height_a, spent_a, additions_a, created_a),
            height_b,
            spent_b,
            additions_b,
            created_b,
        ),
    ensures
        ({
            let after_a = apply_block(s, height_a, spent_a, additions_a, created_a);
            let after_b = apply_block(after_a, height_b, spent_b, additions_b, created_b);
            &&& undo_block(after_b).utxos == after_a.utxos
            &&& undo_block(after_b).history == after_a.history
            &&& undo_block(undo_block(after_b)).utxos == s.utxos
            &&& undo_block(undo_block(after_b)).history == s.history
        }),
{
    let record_a = block_record(height_a, spent_a, additions_a, created_a);
    let after_a = apply_block(s, height_a, spent_a, additions_a, created_a);
    let after_b = apply_block(after_a, height_b, spent_b, additions_b, created_b);
    law_undo_log_keeps_newest(s.undo, record_a, s.max_depth);
    law_update_then_reorg(after_a, height_b, spent_b, additions_b, created_b);
    law_update_then_reorg(s, height_a, spent_a, additions_a, created_a);
    let back = undo_block(after_b);
    assert(back.undo.len() >= 1 && back.undo.last() == record_a);
}

/// An outpoint that is not unspent before a block and that the block does
/// not create is not unspent after it.
pub proof fn law_uncreated_stays_absent(
    s: StoreState,
    height: Height,
    spent: Seq<SpentUtxo>,
    additions: Seq<Posting>,
    created: Seq<Utxo>,
    k: OutPoint,
)
    requires
        !s.utxos.contains_key(k),
        !binds(created, k),
    ensures
        !apply_block(s, height, spent, additions, created).utxos.contains_key(k),
{
    lemma_remove_all(s.utxos, spent_outpoints(spent), k);
    lemma_insert_all(remove_all(s.utxos, spent_outpoints(spent)), created, k);
}

/// After a block the unspent outputs are those that the block created, and
/// those that were unspent before and that the block did not spend.
pub proof fn law_utxos_after_block(
    s: StoreState,
    height: Height,
    spent: Seq<SpentUtxo>,
    additions: Seq<Posting>,
    created: Seq<Utxo>,
    k: OutPoint,
)
    ensures
        apply_block(s, height, spent, additions, created).utxos.contains_key(k) <==> binds(created, k)
            || (s.utxos.contains_key(k) && !spent_outpoints(spent).contains(k)),
{
    lemma_remove_all(s.utxos, spent_outpoints(spent), k);
    lemma_insert_all(remove_all(s.utxos, spent_outpoints(spent)), created, k);
}

/// Nothing is reported missing where every outpoint to remove is unspent
/// and none is named twice.
pub proof fn law_nothing_missing_without_drift(m: Map<OutPoint, ScriptHash>, keys: Seq<OutPoint>)
    requires
        keys.no_duplicates(),
        forall|i: int| 0 <= i < keys.len() ==> m.contains_key(#[trigger] keys[i]),
    ensures
        missing(m, keys) == Seq::<OutPoint>::empty(),
    decreases keys.len(),
{
    if keys.len() > 0 {
        let d = keys.drop_last();
        let n = keys.len() - 1;
        assert forall|i: int| 0 <= i < d.len() implies m.contains_key(#[trigger] d[i]) by {
            assert(d[i] == keys[i]);
        }
        law_nothing_missing_without_drift(m, d);
        lemma_remove_all(m, d, keys[n]);
        assert(m.contains_key(keys[n]));
        if d.contains(keys[n]) {
            let i = choose|i: int| 0 <= i < d.len() && d[i] == keys[n];
            assert(keys[i] == keys[n]);
        }
    }
}

/// An outpoint that is to be removed and is not unspent is reported missing.
pub proof fn law_drift_is_reported(m: Map<OutPoint, ScriptHash>, keys: Seq<OutPoint>, i: int)
    requires
        0 <= i < keys.len(),
        !m.contains_key(keys[i]),
    ensures
        missing(m, keys).contains(keys[i]),
    decreases keys.len(),
{
    let d = keys.drop_last();
    let n = keys.len() - 1;
    lemma_remove_all(m, d, keys[n]);
    if i < n {
        law_drift_is_reported(m, d, i);
        let j = choose|j: int| 0 <= j < missing(m, d).len() && missing(m, d)[j] == d[i];
        assert(missing(m, keys)[j] == keys[i]);
    } else {
        let t = missing(m, keys);
        assert(t[t.len() - 1] == keys[i]);
    }
}

/// What one block brings: its height, its spends, the postings handed in
/// with it and the outputs it creates.
pub struct Block {
    pub height: Height,
    pub spent: Seq<SpentUtxo>,
    pub additions: Seq<Posting>,
    pub created: Seq<Utxo>,
}

/// The store after the blocks were applied in order.
pub open spec fn apply_blocks(s: StoreState, blocks: Seq<Block>) -> StoreState
    decreases blocks.len(),
{
    if blocks.len() == 0 {
        s
    } else {
        let b = blocks.last();
        apply_block(apply_blocks(s, blocks.drop_last()), b.height, b.spent, b.additions, b.created)
    }
}

/// Some block creates the outpoint.
pub open spec fn created_in(blocks: Seq<Block>, k: OutPoint) -> bool {
    exists|b: int| 0 <= b < blocks.len() && binds((#[trigger] blocks[b]).created, k)
}

/// Some block spends the outpoint.
pub open spec fn spent_in(blocks: Seq<Block>, k: OutPoint) -> bool {
    exists|b: int| 0 <= b < blocks.len() && spent_outpoints((#[trigger] blocks[b]).spent).contains(k)
}

/// No output is created by the block that spends it or by a later one.
pub open spec fn spends_follow_creation(blocks: Seq<Block>) -> bool {
    forall|a: int, b: int, k: OutPoint|
        0 <= a <= b < blocks.len() && #[trigger] spent_outpoints(blocks[a].spent).contains(k)
            ==> !#[trigger] binds(blocks[b].created, k)
}

/// From an empty unspent set, after any number of blocks in which no output
/// is created by the block that spends it or by a later one, the unspent
/// outputs are those that some block created and no block spent.
pub proof fn law_utxos_are_created_minus_spent(s: StoreState, blocks: Seq<Block>, k: OutPoint)
    requires
        s.utxos == Map::<OutPoint, ScriptHash>::empty(),
        spends_follow_creation(blocks),
    ensures
        apply_blocks(s, blocks).utxos.contains_key(k) <==> created_in(blocks, k) && !spent_in(
            blocks,
            k,
        ),
    decreases blocks.len(),
{
    if blocks.len() > 0 {
        let n = blocks.len() - 1;
        let prefix = blocks.drop_last();
        let last = blocks[n];
        let prev = apply_blocks(s, prefix);
        assert(spends_follow_creation(prefix)) by {
            assert forall|a: int, b: int, k2: OutPoint|
                0 <= a <= b < prefix.len() && #[trigger] spent_outpoints(prefix[a].spent).contains(
                    k2,
                ) implies !#[trigger] binds(prefix[b].created, k2) by {
                assert(prefix[a] == blocks[a] && prefix[b] == blocks[b]);
            }
        }
        law_utxos_are_created_minus_spent(s, prefix, k);
        law_utxos_after_block(prev, last.height, last.spent, last.additions, last.created, k);
        if created_in(prefix, k) {
            let b = choose|b: int| 0 <= b < prefix.len() && binds((#[trigger] prefix[b]).created, k);
            assert(binds(blocks[b].created, k));
        }
        if spent_in(prefix, k) {
            let b = choose|b: int|
                0 <= b < prefix.len() && spent_outpoints((#[trigger] prefix[b]).spent).contains(k);
            assert(spent_outpoints(blocks[b].spent).contains(k));
        }
        if created_in(blocks, k) {
            let b = choose|b: int| 0 <= b < blocks.len() && binds((#[trigger] blocks[b]).created, k);
            if b < n {
                assert(binds(prefix[b].created, k));
            }
        }
        if spent_in(blocks, k) {
            let a = choose|a: int|
                0 <= a < blocks.len() && spent_outpoints((#[trigger] blocks[a]).spent).contains(k);
            if a < n {
                assert(spent_outpoints(prefix[a].spent).contains(k));
            }
            assert(!binds(blocks[n].created, k));
        }
        if binds(last.created, k) {
            assert(binds(blocks[n].created, k));
        }
        if spent_outpoints(last.spent).contains(k) {
            assert(spent_outpoints(blocks[n].spent).contains(k));
        }
    }
}

/// After a block the history of a script is what it was, then the block's
/// postings for the script: those handed in, then one for each spend of an
/// output that the script owned.
pub proof fn law_history_after_block(
    s: StoreState,
    height: Height,
    spent: Seq<SpentUtxo>,
    additions: Seq<Posting>,
    created: Seq<Utxo>,
    h: ScriptHash,
)
    ensures
        project(apply_block(s, height, spent, additions, created).history, h) == project(
            s.history,
            h,
        ) + project(additions, h) + project(spent_postings(spent, height), h),
{
    let sp = spent_postings(spent, height);
    lemma_project_concat(additions, sp, h);
    lemma_project_concat(s.history, additions + sp, h);
    assert(project(s.history, h) + (project(additions, h) + project(sp, h)) == project(
        s.history,
        h,
    ) + project(additions, h) + project(sp, h));
}

/// Undoing a block removes from the history exactly the postings that match
/// one the block added: what stays are the postings that match none.
pub proof fn law_strip_removes_matches(s: Seq<Posting>, gone: Seq<Posting>, p: Posting)
    ensures
        strip(s, gone).contains(p) <==> s.contains(p) && !gone.contains(p),
    decreases s.len(),
{
    if s.len() > 0 {
        let d = s.drop_last();
        let n = s.len() - 1;
        law_strip_removes_matches(d, gone, p);
        let t = strip(s, gone);
        if d.contains(p) {
            let i = choose|i: int| 0 <= i < d.len() && d[i] == p;
            assert(s[i] == p);
        }
        if s.contains(p) {
            let i = choose|i: int| 0 <= i < s.len() && s[i] == p;
            if i < n {
                assert(d[i] == p);
            }
        }
        if gone.contains(s[n]) {
        } else {
            let r = strip(d, gone);
            assert(t == r.push(s[n]));
            if r.contains(p) {
                let i = choose|i: int| 0 <= i < r.len() && r[i] == p;
                assert(t[i] == p);
            }
            if s[n] == p {
                assert(t[t.len() - 1] == p);
            }
            if t.contains(p) {
                let i = choose|i: int| 0 <= i < t.len() && t[i] == p;
                if i < r.len() {
                    assert(r[i] == p);
                }
            }
        }
    }
}

/// Undoing a block leaves the history of a script as it was where none of
/// the script's entries matches one that the block added: an entry of
/// another transaction at the same height stays.
pub proof fn law_unmatched_history_stays(s: Seq<Posting>, gone: Seq<Posting>, h: ScriptHash)
    requires
        forall|i: int| 0 <= i < s.len() && (#[trigger] s[i]).0 == h ==> !gone.contains(s[i]),
    ensures
        project(strip(s, gone), h) == project(s, h),
    decreases s.len(),
{
    if s.len() > 0 {
        let d = s.drop_last();
        let n = s.len() - 1;
        assert forall|i: int| 0 <= i < d.len() && (#[trigger] d[i]).0 == h implies !gone.contains(
            d[i],
        ) by {
            assert(d[i] == s[i]);
        }
        law_unmatched_history_stays(d, gone, h);
        if !gone.contains(s[n]) {
            let r = strip(d, gone);
            assert(r.push(s[n]).drop_last() == r);
        } else {
            assert(s[n].0 != h);
        }
    }
}

/// A gap longer than `MAX_HASH_GAP_REPAIR` aborts the preload, client or no
/// client, and nothing is asked of the client or the store.
pub proof fn law_long_gap_aborts(s: PreloadState)
    requires
        state_wf(s),
        s.pos < s.metas.len(),
        s.metas[s.pos].height - s.cursor > MAX_HASH_GAP_REPAIR,
    ensures
        scan(s).1 is Abort,
        scan(s).1->Abort_0 is DBCorrupted,
        scan(s).0.phase is Failed,
        scan(s).0.cache == s.cache,
        s.has_client ==> scan(s).1 == Action::Abort(
            Error::DBCorrupted(
                Corruption::GapTooLarge {
                    len: (s.metas[s.pos].height - s.cursor) as u32,
                    first: s.cursor as u32,
                    last: (s.metas[s.pos].height - 1) as u32,
                },
            ),
        ),
{
}

/// Without a client every gap aborts the preload.
pub proof fn law_gap_without_client_aborts(s: PreloadState)
    requires
        state_wf(s),
        s.pos < s.metas.len(),
        s.metas[s.pos].height > s.cursor,
        !s.has_client,
    ensures
        scan(s).1 == Action::Abort(
            Error::DBCorrupted(
                Corruption::GapWithoutClient {
                    expected: s.cursor as u64,
                    found: s.metas[s.pos].height,
                },
            ),
        ),
{
}

/// The `n` records from `s.pos` on lie at consecutive heights that start
/// at the cursor.
pub open spec fn healthy_run(s: PreloadState, n: int) -> bool {
    &&& 0 <= n <= s.metas.len() - s.pos
    &&& forall|j: int| 0 <= j < n ==> (#[trigger] s.metas[s.pos + j]).height == s.cursor + j
}

/// The preload after the `n` records from `s.pos` on were accepted.
pub open spec fn after_run(s: PreloadState, n: int) -> PreloadState {
    PreloadState {
        pos: s.pos + n,
        cursor: s.cursor + n,
        cache: s.cache + Seq::new(
            n as nat,
            |j: int| (s.metas[s.pos + j].hash, s.metas[s.pos + j].timestamp),
        ),
        ..s
    }
}

/// Records at consecutive heights from the cursor on are accepted one by
/// one, each with one cache entry; the walk then goes on behind them.
pub proof fn law_healthy_run_accepted(s: PreloadState, n: int)
    requires
        state_wf(s),
        healthy_run(s, n),
    ensures
        scan(s) == scan(after_run(s, n)),
    decreases n,
{
    if n == 0 {
        assert(after_run(s, 0).cache =~= s.cache);
        assert(after_run(s, 0) == s);
    } else {
        let meta = s.metas[s.pos];
        assert(s.metas[s.pos + 0].height == s.cursor + 0);
        let t = PreloadState { pos: s.pos + 1, ..accept(s, meta) };
        assert(healthy_run(t, n - 1)) by {
            assert forall|j: int| 0 <= j < n - 1 implies (#[trigger] t.metas[t.pos + j]).height
                == t.cursor + j by {
                assert(s.metas[s.pos + (j + 1)].height == s.cursor + (j + 1));
            }
        }
        assert(state_wf(t));
        law_healthy_run_accepted(t, n - 1);
        assert(after_run(t, n - 1).cache =~= after_run(s, n).cache);
        assert(after_run(t, n - 1) == after_run(s, n));
    }
}

/// A healthy sequence, contiguous from height 0, is accepted whole: nothing
/// is asked of the client or the store, and the cache gets one entry for
/// each record, in order.
pub proof fn law_healthy_records_accepted(metas: Seq<BlockMeta>, has_client: bool)
    requires
        metas.len() <= u32::MAX,
        forall|i: int| 0 <= i < metas.len() ==> (#[trigger] metas[i]).height == i,
    ensures
        scan(initial(metas, has_client)).1 == Action::Done(metas.len() as u64),
        scan(initial(metas, has_client)).0.phase is Done,
        scan(initial(metas, has_client)).0.cache == Seq::new(
            metas.len(),
            |i: int| (metas[i].hash, metas[i].timestamp),
        ),
{
    let s = initial(metas, has_client);
    let n = metas.len() as int;
    law_healthy_run_accepted(s, n);
    assert(after_run(s, n).cache =~= Seq::new(
        metas.len(),
        |i: int| (metas[i].hash, metas[i].timestamp),
    ));
}

/// Where the first record that is not at its place lies more than
/// `MAX_HASH_GAP_REPAIR` heights above it, the preload aborts with only the
/// records before it accepted: no repair is begun.
pub proof fn law_first_long_gap_aborts(metas: Seq<BlockMeta>, has_client: bool, g: int)
    requires
        0 <= g < metas.len(),
        forall|i: int| 0 <= i < g ==> (#[trigger] metas[i]).height == i,
        metas[g].height - g > MAX_HASH_GAP_REPAIR,
    ensures
        scan(initial(metas, has_client)).1 is Abort,
        scan(initial(metas, has_client)).1->Abort_0 is DBCorrupted,
        scan(initial(metas, has_client)).0.phase is Failed,
        scan(initial(metas, has_client)).0.cache.len() == g,
{
    let s = initial(metas, has_client);
    law_healthy_run_accepted(s, g);
    law_long_gap_aborts(after_run(s, g));
}

/// Every step keeps what holds of every state of a preload.
pub proof fn law_step_keeps_invariant(s: PreloadState, event: Event)
    requires
        state_wf(s),
    ensures
        state_wf(step(s, event).0),
{
    match (s.phase, event) {
        (Phase::Scanning, Event::Begin) => {
            lemma_scan_keeps_invariant(s);
        },
        (Phase::AwaitingStore { meta }, Event::Stored) => {
            let t = accept(s, meta);
            if !(t.cursor < s.metas[s.pos].height) {
                lemma_scan_keeps_invariant(PreloadState { phase: Phase::Scanning, ..t });
            }
        },
        _ => {},
    }
}

/// The walk keeps what holds of every state of a preload.
pub proof fn lemma_scan_keeps_invariant(s: PreloadState)
    requires
        state_wf(s),
        s.phase is Scanning,
    ensures
        state_wf(scan(s).0),
    decreases s.metas.len() - s.pos,
{
    if s.pos < s.metas.len() {
        let meta = s.metas[s.pos];
        if meta.height == s.cursor {
            lemma_scan_keeps_invariant(PreloadState { pos: s.pos + 1, ..accept(s, meta) });
        }
    }
}

} // verus!
