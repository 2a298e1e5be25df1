//! The unspent-output set: a map from outpoint to owning script, kept as a
//! list of pairs in which no outpoint occurs twice.

use vstd::prelude::*;
use crate::types::{OutPoint, ScriptHash, Utxo};

verus! {

/// The map that a list of pairs stands for; a later pair overrides an earlier
/// one with the same outpoint.
pub open spec fn as_map(s: Seq<Utxo>) -> Map<OutPoint, ScriptHash>
    decreases s.len(),
{
    if s.len() == 0 {
        Map::empty()
    } else {
        as_map(s.drop_last()).insert(s.last().0, s.last().1)
    }
}

/// No outpoint occurs twice in the list.
pub open spec fn unique_keys(s: Seq<Utxo>) -> bool {
    forall|i: int, j: int| 0 <= i < j < s.len() ==> (#[trigger] s[i]).0 != (#[trigger] s[j]).0
}

/// The map after each outpoint of `keys` has been removed from it.
pub open spec fn remove_all(m: Map<OutPoint, ScriptHash>, keys: Seq<OutPoint>) -> Map<
    OutPoint,
    ScriptHash,
>
    decreases keys.len(),
{
    if keys.len() == 0 {
        m
    } else {
        remove_all(m, keys.drop_last()).remove(keys.last())
    }
}

/// The map after the pairs of `adds` have been inserted in order.
pub open spec fn insert_all(m: Map<OutPoint, ScriptHash>, adds: Seq<Utxo>) -> Map<
    OutPoint,
    ScriptHash,
>
    decreases adds.len(),
{
    if adds.len() == 0 {
        m
    } else {
        insert_all(m, adds.drop_last()).insert(adds.last().0, adds.last().1)
    }
}

/// The outpoints of `keys` that are unbound when their turn comes, as the
/// outpoints are removed from the map one after the other.
pub open spec fn missing(m: Map<OutPoint, ScriptHash>, keys: Seq<OutPoint>) -> Seq<OutPoint>
    decreases keys.len(),
{
    if keys.len() == 0 {
        Seq::empty()
    } else if remove_all(m, keys.drop_last()).contains_key(keys.last()) {
        missing(m, keys.drop_last())
    } else {
        missing(m, keys.drop_last()).push(keys.last())
    }
}

/// The outpoints of a list of pairs, in order.
pub open spec fn keys_of(s: Seq<Utxo>) -> Seq<OutPoint> {
    Seq::new(s.len(), |i: int| s[i].0)
}

/// An outpoint is bound in the map of a list exactly if some pair holds it.
pub proof fn lemma_as_map_dom(s: Seq<Utxo>, k: OutPoint)
    ensures
        as_map(s).contains_key(k) <==> exists|i: int| 0 <= i < s.len() && (#[trigger] s[i]).0 == k,
    decreases s.len(),
{
    if s.len() > 0 {
        let d = s.drop_last();
        lemma_as_map_dom(d, k);
        if as_map(s).contains_key(k) {
            if s.last().0 == k {
                assert(s[s.len() - 1].0 == k);
            } else {
                let i = choose|i: int| 0 <= i < d.len() && (#[trigger] d[i]).0 == k;
                assert(s[i].0 == k);
            }
        }
        if exists|i: int| 0 <= i < s.len() && (#[trigger] s[i]).0 == k {
            let i = choose|i: int| 0 <= i < s.len() && (#[trigger] s[i]).0 == k;
            if i < d.len() {
                assert(d[i].0 == k);
            }
        }
    }
}

/// In a list without repeated outpoints, each pair is a binding of the map.
pub proof fn lemma_as_map_at(s: Seq<Utxo>, i: int)
    requires
        unique_keys(s),
        0 <= i < s.len(),
    ensures
        as_map(s).contains_key(s[i].0),
        as_map(s)[s[i].0] == s[i].1,
    decreases s.len(),
{
    let d = s.drop_last();
    if i < s.len() - 1 {
        assert(unique_keys(d)) by {
            assert forall|a: int, b: int| 0 <= a < b < d.len() implies (#[trigger] d[a]).0 != (
            #[trigger] d[b]).0 by {
                assert(s[a].0 != s[b].0);
            }
        }
        lemma_as_map_at(d, i);
        assert(s[i].0 != s[s.len() - 1].0);
    }
}

/// Taking one pair out of a list without repeated outpoints removes its
/// outpoint from the map and leaves the list without repeats.
pub proof fn lemma_as_map_remove(s: Seq<Utxo>, i: int)
    requires
        unique_keys(s),
        0 <= i < s.len(),
    ensures
        unique_keys(s.remove(i)),
        as_map(s.remove(i)) == as_map(s).remove(s[i].0),
    decreases s.len(),
{
    let r = s.remove(i);
    let d = s.drop_last();
    assert(unique_keys(r)) by {
        assert forall|a: int, b: int| 0 <= a < b < r.len() implies (#[trigger] r[a]).0 != (
        #[trigger] r[b]).0 by {
            let a2 = if a < i { a } else { a + 1 };
            let b2 = if b < i { b } else { b + 1 };
            assert(s[a2].0 != s[b2].0);
        }
    }
    if i == s.len() - 1 {
        assert(r == d);
        lemma_as_map_dom(d, s[i].0);
        if as_map(d).contains_key(s[i].0) {
            let j = choose|j: int| 0 <= j < d.len() && (#[trigger] d[j]).0 == s[i].0;
            assert(s[j].0 != s[i].0);
        }
        assert(as_map(d).insert(s[i].0, s[i].1).remove(s[i].0) == as_map(d));
    } else {
        assert(unique_keys(d)) by {
            assert forall|a: int, b: int| 0 <= a < b < d.len() implies (#[trigger] d[a]).0 != (
            #[trigger] d[b]).0 by {
                assert(s[a].0 != s[b].0);
            }
        }
        lemma_as_map_remove(d, i);
        assert(r.drop_last() == d.remove(i));
        assert(r.last() == s.last());
        assert(s[i].0 != s[s.len() - 1].0);
        assert(as_map(d).remove(s[i].0).insert(s.last().0, s.last().1) == as_map(d).insert(
            s.last().0,
            s.last().1,
        ).remove(s[i].0));
    }
}

/// Some pair of the list holds the outpoint.
pub open spec fn binds(s: Seq<Utxo>, k: OutPoint) -> bool {
    exists|j: int| 0 <= j < s.len() && (#[trigger] s[j]).0 == k
}

/// The outpoints of a list are those that it binds.
pub proof fn lemma_keys_of_binds(s: Seq<Utxo>, k: OutPoint)
    ensures
        keys_of(s).contains(k) <==> binds(s, k),
{
    if keys_of(s).contains(k) {
        let i = choose|i: int| 0 <= i < keys_of(s).len() && keys_of(s)[i] == k;
        assert(s[i].0 == k);
    }
    if binds(s, k) {
        let j = choose|j: int| 0 <= j < s.len() && (#[trigger] s[j]).0 == k;
        assert(keys_of(s)[j] == k);
    }
}

/// What removing a list of outpoints leaves: the bindings of the outpoints
/// that are not in the list, unchanged.
pub proof fn lemma_remove_all(m: Map<OutPoint, ScriptHash>, keys: Seq<OutPoint>, k: OutPoint)
    ensures
        remove_all(m, keys).contains_key(k) <==> m.contains_key(k) && !keys.contains(k),
        remove_all(m, keys).contains_key(k) ==> remove_all(m, keys)[k] == m[k],
    decreases keys.len(),
{
    if keys.len() > 0 {
        let d = keys.drop_last();
        lemma_remove_all(m, d, k);
        if d.contains(k) {
            let i = choose|i: int| 0 <= i < d.len() && d[i] == k;
            assert(keys[i] == k);
        }
        if keys.contains(k) {
            let i = choose|i: int| 0 <= i < keys.len() && keys[i] == k;
            if i < d.len() {
                assert(d[i] == k);
            }
        } else {
            assert(keys[keys.len() - 1] != k);
        }
    }
}

/// What inserting a list of pairs gives: an outpoint that the list binds is
/// bound to the script of one of its pairs, and every other binding is
/// unchanged.
pub proof fn lemma_insert_all(m: Map<OutPoint, ScriptHash>, adds: Seq<Utxo>, k: OutPoint)
    ensures
        insert_all(m, adds).contains_key(k) <==> m.contains_key(k) || binds(adds, k),
        binds(adds, k) ==> exists|j: int|
            0 <= j < adds.len() && (#[trigger] adds[j]).0 == k && insert_all(m, adds)[k] == adds[j].1,
        !binds(adds, k) && m.contains_key(k) ==> insert_all(m, adds)[k] == m[k],
    decreases adds.len(),
{
    if adds.len() > 0 {
        let d = adds.drop_last();
        let n = adds.len() - 1;
        lemma_insert_all(m, d, k);
        if adds[n].0 == k {
            assert(binds(adds, k));
            assert(adds[n].0 == k && insert_all(m, adds)[k] == adds[n].1);
        } else {
            if binds(d, k) {
                let j = choose|j: int|
                    0 <= j < d.len() && (#[trigger] d[j]).0 == k && insert_all(m, d)[k] == d[j].1;
                assert(adds[j].0 == k && insert_all(m, adds)[k] == adds[j].1);
                assert(binds(adds, k));
            }
            if binds(adds, k) {
                let j = choose|j: int| 0 <= j < adds.len() && (#[trigger] adds[j]).0 == k;
                assert(d[j].0 == k);
            }
        }
    }
}

/// The set of unspent outputs, each with the script that owns it.
#[derive(Debug)]
pub struct UtxoSet {
    pub entries: Vec<Utxo>,
}

impl View for UtxoSet {
    type V = Map<OutPoint, ScriptHash>;

    open spec fn view(&self) -> Map<OutPoint, ScriptHash> {
        as_map(self.entries@)
    }
}

impl UtxoSet {
    /// No outpoint is held twice.
    pub open spec fn wf(&self) -> bool {
        unique_keys(self.entries@)
    }

    pub fn new() -> (r: Self)
        ensures
            r.wf(),
            r@ == Map::<OutPoint, ScriptHash>::empty(),
    {
        UtxoSet { entries: Vec::new() }
    }

    /// Position of the pair that holds `outpoint`, if there is one.
    fn position(&self, outpoint: OutPoint) -> (r: Option<usize>)
        ensures
            match r {
                Some(i) => i < self.entries@.len() && self.entries@[i as int].0 == outpoint,
                None => forall|j: int|
                    0 <= j < self.entries@.len() ==> (#[trigger] self.entries@[j]).0 != outpoint,
            },
    {
        let mut i: usize = 0;
        while i < self.entries.len()
            invariant
                i <= self.entries@.len(),
                forall|j: int| 0 <= j < i ==> (#[trigger] self.entries@[j]).0 != outpoint,
            decreases self.entries@.len() - i,
        {
            if self.entries[i].0 == outpoint {
                return Some(i);
            }
            i += 1;
        }
        None
    }

    /// The script that owns `outpoint`, if the output is unspent.
    pub fn get(&self, outpoint: OutPoint) -> (r: Option<ScriptHash>)
        requires
            self.wf(),
        ensures
            r == (if self@.contains_key(outpoint) {
                Some(self@[outpoint])
            } else {
                None
            }),
    {
        proof {
            lemma_as_map_dom(self.entries@, outpoint);
        }
        match self.position(outpoint) {
            Some(i) => {
                proof {
                    lemma_as_map_at(self.entries@, i as int);
                }
                Some(self.entries[i].1)
            },
            None => None,
        }
    }

    /// Removes `outpoint`; the result says whether it was there.
    pub fn remove(&mut self, outpoint: OutPoint) -> (r: bool)
        requires
            old(self).wf(),
        ensures
            final(self).wf(),
            final(self)@ == old(self)@.remove(outpoint),
            r == old(self)@.contains_key(outpoint),
    {
        proof {
            lemma_as_map_dom(self.entries@, outpoint);
        }
        match self.position(outpoint) {
            Some(i) => {
                proof {
                    lemma_as_map_remove(self.entries@, i as int);
                }
                let _ = self.entries.remove(i);
                true
            },
            None => {
                assert(self@.remove(outpoint) == self@);
                false
            },
        }
    }

    /// Binds `outpoint` to `script_hash`, replacing an earlier binding.
    pub fn insert(&mut self, outpoint: OutPoint, script_hash: ScriptHash)
        requires
            old(self).wf(),
        ensures
            final(self).wf(),
            final(self)@ == old(self)@.insert(outpoint, script_hash),
    {
        let _ = self.remove(outpoint);
        proof {
            lemma_as_map_dom(self.entries@, outpoint);
            let s = self.entries@;
            let t = s.push((outpoint, script_hash));
            assert(t.drop_last() == s);
            assert(unique_keys(t)) by {
                assert forall|a: int, b: int| 0 <= a < b < t.len() implies (#[trigger] t[a]).0 != (
                #[trigger] t[b]).0 by {
                    if b < s.len() {
                        assert(s[a].0 != s[b].0);
                    } else {
                        assert(t[a] == s[a]);
                    }
                }
            }
            assert(old(self)@.remove(outpoint).insert(outpoint, script_hash) == old(self)@.insert(
                outpoint,
                script_hash,
            ));
        }
        self.entries.push((outpoint, script_hash));
    }

    /// Removes each of `outpoints` in order. The result lists those that were
    /// not there when their turn came: a sign that the index has drifted,
    /// which does not stop the removal.
    pub fn remove_utxos(&mut self, outpoints: &Vec<OutPoint>) -> (absent: Vec<OutPoint>)
        requires
            old(self).wf(),
        ensures
            final(self).wf(),
            final(self)@ == remove_all(old(self)@, outpoints@),
            absent@ == missing(old(self)@, outpoints@),
    {
        let mut absent: Vec<OutPoint> = Vec::new();
        let mut i: usize = 0;
        while i < outpoints.len()
            invariant
                i <= outpoints@.len(),
                self.wf(),
                self@ == remove_all(old(self)@, outpoints@.take(i as int)),
                absent@ == missing(old(self)@, outpoints@.take(i as int)),
            decreases outpoints@.len() - i,
        {
            proof {
                assert(outpoints@.take(i + 1).drop_last() == outpoints@.take(i as int));
            }
            let found = self.remove(outpoints[i]);
            if !found {
                absent.push(outpoints[i]);
            }
            i += 1;
        }
        proof {
            assert(outpoints@.take(i as int) == outpoints@);
        }
        absent
    }

    /// Inserts each pair of `adds` in order.
    pub fn insert_utxos(&mut self, adds: &Vec<Utxo>)
        requires
            old(self).wf(),
        ensures
            final(self).wf(),
            final(self)@ == insert_all(old(self)@, adds@),
    {
        let mut i: usize = 0;
        while i < adds.len()
            invariant
                i <= adds@.len(),
                self.wf(),
                self@ == insert_all(old(self)@, adds@.take(i as int)),
            decreases adds@.len() - i,
        {
            proof {
                assert(adds@.take(i + 1).drop_last() == adds@.take(i as int));
            }
            self.insert(adds[i].0, adds[i].1);
            i += 1;
        }
        proof {
            assert(adds@.take(i as int) == adds@);
        }
    }

    /// Removes the outpoint of each pair of `utxos_created`.
    pub fn remove_utxos_created(&mut self, utxos_created: &Vec<Utxo>)
        requires
            old(self).wf(),
        ensures
            final(self).wf(),
            final(self)@ == remove_all(old(self)@, keys_of(utxos_created@)),
    {
        let ghost keys = keys_of(utxos_created@);
        let mut i: usize = 0;
        while i < utxos_created.len()
            invariant
                i <= utxos_created@.len(),
                keys == keys_of(utxos_created@),
                self.wf(),
                self@ == remove_all(old(self)@, keys.take(i as int)),
            decreases utxos_created@.len() - i,
        {
            proof {
                assert(keys.take(i + 1).drop_last() == keys.take(i as int));
            }
            let _ = self.remove(utxos_created[i].0);
            i += 1;
        }
        proof {
            assert(keys.take(i as int) == keys);
        }
    }
}

} // verus!
