//! Distribution tables: how often each record type or response code was seen.

use std::collections::HashMap;
use std::hash::Hash;
use vstd::prelude::*;
use vstd::std_specs::hash::obeys_key_model;

verus! {

/// One entry of a distribution table as the engine reports it: a key, which
/// is a record type or a response code, and how often it was seen.
#[derive(Debug)]
pub struct TypeCount<K> {
    pub rr_type: K,
    pub count: u32,
}

/// The mapping that a table stands for. Entries are taken in order, and an
/// entry replaces whatever an earlier one said of the same key.
pub open spec fn distribution<K>(counts: Seq<TypeCount<K>>) -> Map<K, u32>
    decreases counts.len(),
{
    if counts.len() == 0 {
        Map::empty()
    } else {
        distribution(counts.drop_last()).insert(counts.last().rr_type, counts.last().count)
    }
}

/// No key occurs at two places of the table.
pub open spec fn distinct_keys<K>(counts: Seq<TypeCount<K>>) -> bool {
    forall|i: int, j: int|
        0 <= i < j < counts.len() ==> counts[i].rr_type != counts[j].rr_type
}

/// The entry at `i` is the last one for its key.
pub open spec fn is_last_for_key<K>(counts: Seq<TypeCount<K>>, i: int) -> bool {
    &&& 0 <= i < counts.len()
    &&& forall|j: int| i < j < counts.len() ==> counts[j].rr_type != counts[i].rr_type
}

/// The keys of the mapping are the keys that occur in the table.
pub proof fn lemma_distribution_keys<K>(counts: Seq<TypeCount<K>>, key: K)
    ensures
        distribution(counts).contains_key(key) <==> exists|i: int|
            0 <= i < counts.len() && counts[i].rr_type == key,
    decreases counts.len(),
{
    if counts.len() > 0 {
        let front = counts.drop_last();
        lemma_distribution_keys(front, key);
        if distribution(counts).contains_key(key) {
            if counts.last().rr_type == key {
                assert(counts[counts.len() - 1].rr_type == key);
            } else {
                let i = choose|i: int| 0 <= i < front.len() && front[i].rr_type == key;
                assert(counts[i].rr_type == key);
            }
        }
        if exists|i: int| 0 <= i < counts.len() && counts[i].rr_type == key {
            let i = choose|i: int| 0 <= i < counts.len() && counts[i].rr_type == key;
            if i < counts.len() - 1 {
                assert(front[i].rr_type == key);
            }
        }
    }
}

/// Last write wins: a key maps to the count of the last entry that names it,
/// however many entries named it before.
pub proof fn lemma_distribution_last_wins<K>(counts: Seq<TypeCount<K>>, i: int)
    requires
        is_last_for_key(counts, i),
    ensures
        distribution(counts).contains_pair(counts[i].rr_type, counts[i].count),
    decreases counts.len(),
{
    if i < counts.len() - 1 {
        let front = counts.drop_last();
        assert(counts[counts.len() - 1].rr_type != counts[i].rr_type);
        assert forall|j: int| i < j < front.len() implies front[j].rr_type != front[i].rr_type by {
            assert(front[j] == counts[j]);
        }
        lemma_distribution_last_wins(front, i);
    }
}

/// A table without repeated keys yields exactly its own associations: every
/// entry is in the mapping, and the mapping holds nothing else.
pub proof fn lemma_distribution_distinct<K>(counts: Seq<TypeCount<K>>)
    requires
        distinct_keys(counts),
    ensures
        forall|i: int|
            0 <= i < counts.len() ==> #[trigger] distribution(counts).contains_pair(
                counts[i].rr_type,
                counts[i].count,
            ),
        forall|key: K| #[trigger]
            distribution(counts).contains_key(key) ==> exists|i: int|
                0 <= i < counts.len() && counts[i].rr_type == key,
        distribution(counts).dom().finite(),
        distribution(counts).len() == counts.len(),
    decreases counts.len(),
{
    assert forall|i: int| 0 <= i < counts.len() implies #[trigger] distribution(
        counts,
    ).contains_pair(counts[i].rr_type, counts[i].count) by {
        lemma_distribution_last_wins(counts, i);
    }
    assert forall|key: K| #[trigger] distribution(counts).contains_key(key) implies exists|i: int|
        0 <= i < counts.len() && counts[i].rr_type == key by {
        lemma_distribution_keys(counts, key);
    }
    if counts.len() > 0 {
        let front = counts.drop_last();
        lemma_distribution_distinct(front);
        lemma_distribution_keys(front, counts.last().rr_type);
        assert(!distribution(front).contains_key(counts.last().rr_type)) by {
            if distribution(front).contains_key(counts.last().rr_type) {
                let i = choose|i: int|
                    0 <= i < front.len() && front[i].rr_type == counts.last().rr_type;
                assert(counts[i].rr_type == counts[counts.len() - 1].rr_type);
            }
        }
    }
}

/// Builds the mapping of a table by inserting its entries in order.
pub(crate) fn collect_distribution<K: Copy + Eq + Hash>(counts: &[TypeCount<K>]) -> (table:
    HashMap<K, u32>)
    requires
        obeys_key_model::<K>(),
    ensures
        table@ == distribution(counts@),
{
    let mut table: HashMap<K, u32> = HashMap::new();
    let mut i: usize = 0;
    while i < counts.len()
        invariant
            obeys_key_model::<K>(),
            i <= counts.len(),
            table@ == distribution(counts@.take(i as int)),
        decreases counts.len() - i,
    {
        table.insert(counts[i].rr_type, counts[i].count);
        proof {
            assert(counts@.take(i + 1).drop_last() == counts@.take(i as int));
        }
        i = i + 1;
    }
    proof {
        assert(counts@.take(i as int) == counts@);
    }
    table
}

} // verus!
