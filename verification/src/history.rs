//! The history index: every appearance of a script in the chain, kept as
//! one list of postings in the order in which they were recorded.

use vstd::prelude::*;
use crate::types::{Height, OutPoint, Posting, ScriptHash, SpentUtxo, TxSeen, Utxo, V};

verus! {

/// The entries recorded for `script_hash`, in the order of the list.
pub open spec fn project(s: Seq<Posting>, script_hash: ScriptHash) -> Seq<TxSeen>
    decreases s.len(),
{
    if s.len() == 0 {
        Seq::empty()
    } else if s.last().0 == script_hash {
        project(s.drop_last(), script_hash).push(s.last().1)
    } else {
        project(s.drop_last(), script_hash)
    }
}

/// The list without the postings that occur in `gone`: those with the same
/// script, transaction, height and direction as one of them. The order of
/// what stays is kept.
pub open spec fn strip(s: Seq<Posting>, gone: Seq<Posting>) -> Seq<Posting>
    decreases s.len(),
{
    if s.len() == 0 {
        Seq::empty()
    } else if gone.contains(s.last()) {
        strip(s.drop_last(), gone)
    } else {
        strip(s.drop_last(), gone).push(s.last())
    }
}

/// The posting that a spend adds to the history of the script that owned the
/// output: the spending transaction, at the block's height, as an input.
pub open spec fn spent_posting(spent: SpentUtxo, height: Height) -> Posting {
    (spent.script_hash, TxSeen { txid: spent.txid, height, v: V::Vin(spent.vin) })
}

/// The postings that the spends of one block add, in the order of the spends.
pub open spec fn spent_postings(spent: Seq<SpentUtxo>, height: Height) -> Seq<Posting> {
    Seq::new(spent.len(), |i: int| spent_posting(spent[i], height))
}

/// The outputs that the spends of one block consume, each with its owner.
pub open spec fn spent_pairs(spent: Seq<SpentUtxo>) -> Seq<Utxo> {
    Seq::new(spent.len(), |i: int| (spent[i].outpoint, spent[i].script_hash))
}

/// The outpoints that the spends of one block consume.
pub open spec fn spent_outpoints(spent: Seq<SpentUtxo>) -> Seq<OutPoint> {
    Seq::new(spent.len(), |i: int| spent[i].outpoint)
}

/// The outpoints that the spends consume, in order.
pub fn outpoints_of(spent: &Vec<SpentUtxo>) -> (r: Vec<OutPoint>)
    ensures
        r@ == spent_outpoints(spent@),
{
    let mut r: Vec<OutPoint> = Vec::new();
    let mut i: usize = 0;
    while i < spent.len()
        invariant
            i <= spent@.len(),
            r@.len() == i,
            forall|j: int| 0 <= j < i ==> r@[j] == spent@[j].outpoint,
        decreases spent@.len() - i,
    {
        r.push(spent[i].outpoint);
        i += 1;
    }
    assert(r@ =~= spent_outpoints(spent@));
    r
}

/// The outputs that the spends consume, each with its owner, in order.
pub fn pairs_of(spent: &Vec<SpentUtxo>) -> (r: Vec<Utxo>)
    ensures
        r@ == spent_pairs(spent@),
{
    let mut r: Vec<Utxo> = Vec::new();
    let mut i: usize = 0;
    while i < spent.len()
        invariant
            i <= spent@.len(),
            r@.len() == i,
            forall|j: int| 0 <= j < i ==> r@[j] == (spent@[j].outpoint, spent@[j].script_hash),
        decreases spent@.len() - i,
    {
        r.push((spent[i].outpoint, spent[i].script_hash));
        i += 1;
    }
    assert(r@ =~= spent_pairs(spent@));
    r
}

/// Appends to `history_map` the posting of each spend, in order.
pub fn add_spent_postings(history_map: &mut Vec<Posting>, spent: &Vec<SpentUtxo>, height: Height)
    ensures
        final(history_map)@ == old(history_map)@ + spent_postings(spent@, height),
{
    let mut i: usize = 0;
    while i < spent.len()
        invariant
            i <= spent@.len(),
            history_map@.len() == old(history_map)@.len() + i,
            forall|j: int| 0 <= j < old(history_map)@.len() ==> history_map@[j] == old(history_map)@[j],
            forall|j: int|
                0 <= j < i ==> history_map@[old(history_map)@.len() + j] == spent_posting(
                    spent@[j],
                    height,
                ),
        decreases spent@.len() - i,
    {
        let s = spent[i];
        history_map.push((s.script_hash, TxSeen::new(s.txid, height, V::Vin(s.vin))));
        i += 1;
    }
    assert(history_map@ =~= old(history_map)@ + spent_postings(spent@, height));
}

/// Appends the postings of `add` to the index.
pub fn update_history(history: &mut Vec<Posting>, add: &Vec<Posting>)
    ensures
        final(history)@ == old(history)@ + add@,
{
    let mut i: usize = 0;
    while i < add.len()
        invariant
            i <= add@.len(),
            history@ == old(history)@ + add@.take(i as int),
        decreases add@.len() - i,
    {
        assert(add@.take(i + 1) == add@.take(i as int).push(add@[i as int]));
        history.push(add[i]);
        i += 1;
    }
    assert(add@.take(i as int) == add@);
}

/// Whether `posting` occurs in `list`.
pub fn has_posting(list: &Vec<Posting>, posting: Posting) -> (r: bool)
    ensures
        r == list@.contains(posting),
{
    let mut i: usize = 0;
    while i < list.len()
        invariant
            i <= list@.len(),
            forall|j: int| 0 <= j < i ==> list@[j] != posting,
        decreases list@.len() - i,
    {
        if list[i].0 == posting.0 && list[i].1 == posting.1 {
            assert(list@[i as int] == posting);
            return true;
        }
        i += 1;
    }
    false
}

/// Removes from the index every posting that occurs in `to_remove`.
pub fn remove_history_entries(history: &mut Vec<Posting>, to_remove: &Vec<Posting>)
    ensures
        final(history)@ == strip(old(history)@, to_remove@),
{
    if to_remove.len() == 0 {
        proof {
            lemma_strip_nothing(history@, to_remove@);
        }
        return ;
    }
    let mut kept: Vec<Posting> = Vec::new();
    let mut i: usize = 0;
    while i < history.len()
        invariant
            i <= history@.len(),
            history@ == old(history)@,
            kept@ == strip(history@.take(i as int), to_remove@),
        decreases history@.len() - i,
    {
        proof {
            assert(history@.take(i + 1).drop_last() == history@.take(i as int));
        }
        if !has_posting(to_remove, history[i]) {
            kept.push(history[i]);
        }
        i += 1;
    }
    proof {
        assert(history@.take(i as int) == history@);
    }
    *history = kept;
}

/// The entries recorded for `script_hash`.
pub fn history_of(history: &Vec<Posting>, script_hash: ScriptHash) -> (r: Vec<TxSeen>)
    ensures
        r@ == project(history@, script_hash),
{
    let mut r: Vec<TxSeen> = Vec::new();
    let mut i: usize = 0;
    while i < history.len()
        invariant
            i <= history@.len(),
            r@ == project(history@.take(i as int), script_hash),
        decreases history@.len() - i,
    {
        proof {
            assert(history@.take(i + 1).drop_last() == history@.take(i as int));
        }
        if history[i].0 == script_hash {
            r.push(history[i].1);
        }
        i += 1;
    }
    proof {
        assert(history@.take(i as int) == history@);
    }
    r
}

/// Stripping a list of postings none of which occurs in `gone` changes nothing.
pub proof fn lemma_strip_nothing(s: Seq<Posting>, gone: Seq<Posting>)
    requires
        forall|i: int| 0 <= i < s.len() ==> !gone.contains(#[trigger] s[i]),
    ensures
        strip(s, gone) == s,
    decreases s.len(),
{
    if s.len() > 0 {
        let d = s.drop_last();
        assert forall|i: int| 0 <= i < d.len() implies !gone.contains(#[trigger] d[i]) by {
            assert(d[i] == s[i]);
        }
        lemma_strip_nothing(d, gone);
        assert(!gone.contains(s[s.len() - 1]));
        assert(d.push(s.last()) == s);
    }
}

/// Stripping a list of postings each of which occurs in `gone` leaves nothing.
pub proof fn lemma_strip_everything(s: Seq<Posting>, gone: Seq<Posting>)
    requires
        forall|i: int| 0 <= i < s.len() ==> gone.contains(#[trigger] s[i]),
    ensures
        strip(s, gone) == Seq::<Posting>::empty(),
    decreases s.len(),
{
    if s.len() > 0 {
        let d = s.drop_last();
        assert forall|i: int| 0 <= i < d.len() implies gone.contains(#[trigger] d[i]) by {
            assert(d[i] == s[i]);
        }
        lemma_strip_everything(d, gone);
        assert(gone.contains(s[s.len() - 1]));
    }
}

/// Stripping goes through concatenation.
pub proof fn lemma_strip_concat(a: Seq<Posting>, b: Seq<Posting>, gone: Seq<Posting>)
    ensures
        strip(a + b, gone) == strip(a, gone) + strip(b, gone),
    decreases b.len(),
{
    if b.len() == 0 {
        assert(a + b == a);
        assert(strip(a, gone) + strip(b, gone) == strip(a, gone));
    } else {
        let d = b.drop_last();
        lemma_strip_concat(a, d, gone);
        assert((a + b).drop_last() == a + d);
        assert((a + b).last() == b.last());
        if !gone.contains(b.last()) {
            assert((strip(a, gone) + strip(d, gone)).push(b.last()) == strip(a, gone) + strip(
                d,
                gone,
            ).push(b.last()));
        }
    }
}

/// Projection onto one script goes through concatenation.
pub proof fn lemma_project_concat(a: Seq<Posting>, b: Seq<Posting>, h: ScriptHash)
    ensures
        project(a + b, h) == project(a, h) + project(b, h),
    decreases b.len(),
{
    if b.len() == 0 {
        assert(a + b == a);
        assert(project(a, h) + project(b, h) == project(a, h));
    } else {
        let d = b.drop_last();
        lemma_project_concat(a, d, h);
        assert((a + b).drop_last() == a + d);
        assert((a + b).last() == b.last());
        if b.last().0 == h {
            assert((project(a, h) + project(d, h)).push(b.last().1) == project(a, h) + project(
                d,
                h,
            ).push(b.last().1));
        }
    }
}

} // verus!
