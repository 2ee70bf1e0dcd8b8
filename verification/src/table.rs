//! A keyed lookup table with last-write-wins insertion.
//!
//! The table is a vector of key/value pairs whose view is the map that
//! inserting every pair in order builds; a lookup scans from the newest
//! entry, so a duplicate key naturally overwrites an older one.

use vstd::prelude::*;
use crate::text::chars_eq;

verus! {

pub struct Table<V> {
    pairs: Vec<(Vec<char>, V)>,
}

/// The map that inserting the pairs in order builds: a later pair with the
/// same key overwrites an earlier one.
pub open spec fn table_map<V: View>(pairs: Seq<(Vec<char>, V)>) -> Map<Seq<char>, V::V>
    decreases pairs.len(),
{
    if pairs.len() == 0 {
        Map::empty()
    } else {
        table_map(pairs.drop_last()).insert(pairs.last().0@, pairs.last().1@)
    }
}

impl<V: View> View for Table<V> {
    type V = Map<Seq<char>, <V as View>::V>;

    closed spec fn view(&self) -> Map<Seq<char>, <V as View>::V> {
        table_map(self.pairs@)
    }
}

/// Entries at or past position `i` never hold key `k`, so the whole
/// table's map agrees with the map of the first `i` entries on `k`.
proof fn lemma_table_map_prefix<V: View>(pairs: Seq<(Vec<char>, V)>, i: int, k: Seq<char>)
    requires
        0 <= i <= pairs.len(),
        forall|j: int| i <= j < pairs.len() ==> pairs[j].0@ != k,
    ensures
        table_map(pairs).contains_key(k) == table_map(pairs.take(i)).contains_key(k),
        table_map(pairs).contains_key(k) ==> table_map(pairs)[k] == table_map(pairs.take(i))[k],
    decreases pairs.len() - i,
{
    if i == pairs.len() {
        assert(pairs.take(i) =~= pairs);
    } else {
        lemma_table_map_prefix(pairs.drop_last(), i, k);
        assert(pairs.drop_last().take(i) =~= pairs.take(i));
    }
}

impl<V: View> Table<V> {
    /// An empty table.
    pub fn new() -> (t: Table<V>)
        ensures
            t@ == Map::<Seq<char>, <V as View>::V>::empty(),
    {
        Table { pairs: Vec::new() }
    }

    /// Inserts a value under a key; a value already under that key is
    /// overwritten.
    pub fn insert(&mut self, key: Vec<char>, value: V)
        ensures
            final(self)@ == old(self)@.insert(key@, value@),
    {
        let ghost before = self.pairs@;
        self.pairs.push((key, value));
        proof {
            assert(self.pairs@.drop_last() =~= before);
        }
    }

    /// Looks a key up; absence is a normal outcome.
    pub fn get(&self, key: &Vec<char>) -> (r: Option<&V>)
        ensures
            r is Some <==> self@.contains_key(key@),
            (r matches Some(v) ==> v@ == self@[key@]),
    {
        let mut i = self.pairs.len();
        while i > 0
            invariant
                i <= self.pairs@.len(),
                forall|j: int| i <= j < self.pairs@.len() ==> self.pairs@[j].0@ != key@,
            decreases i,
        {
            i -= 1;
            if chars_eq(&self.pairs[i].0, key) {
                proof {
                    lemma_table_map_prefix(self.pairs@, i as int + 1, key@);
                    let front = self.pairs@.take(i as int + 1);
                    assert(front.drop_last() =~= self.pairs@.take(i as int));
                    assert(front.last() == self.pairs@[i as int]);
                }
                return Some(&self.pairs[i].1);
            }
        }
        proof {
            lemma_table_map_prefix(self.pairs@, 0, key@);
            assert(self.pairs@.take(0) =~= Seq::<(Vec<char>, V)>::empty());
        }
        None
    }
}

} // verus!
