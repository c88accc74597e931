//! Metadata on the guest boundary.
use vstd::prelude::*;

use crate::meta::{lists, pairs_map, wire_pairs, Pair};

verus! {

/// Of the pairs with one key the last counts: a pair that no later one has the
/// key of gives the key its value.
pub proof fn the_last_pair_of_a_key_counts(pairs: Seq<Pair>, i: int)
    requires
        0 <= i < pairs.len(),
        forall|j: int| i < j < pairs.len() ==> #[trigger] pairs[j].0 != pairs[i].0,
    ensures
        pairs_map(pairs).contains_key(pairs[i].0),
        pairs_map(pairs)[pairs[i].0] == pairs[i].1,
    decreases pairs.len(),
{
    if i < pairs.len() - 1 {
        let front = pairs.drop_last();
        assert forall|j: int| i < j < front.len() implies #[trigger] front[j].0 != front[i].0 by {
            assert(pairs[j].0 != pairs[i].0);
        }
        the_last_pair_of_a_key_counts(front, i);
        assert(pairs[pairs.len() - 1].0 != pairs[i].0);
    }
}

/// A key that no pair has is not in the map.
pub proof fn only_keys_of_pairs_count(pairs: Seq<Pair>, key: Seq<char>)
    requires
        forall|i: int| 0 <= i < pairs.len() ==> #[trigger] pairs[i].0 != key,
    ensures
        !pairs_map(pairs).contains_key(key),
{
    crate::meta::pairs_map_domain(pairs, key);
}

/// A pair on the boundary is a key and then its value, in the order of the list.
pub proof fn pairs_are_key_and_value(pairs: Seq<[String; 2]>, i: int)
    requires
        0 <= i < pairs.len(),
    ensures
        wire_pairs(pairs).len() == pairs.len(),
        wire_pairs(pairs)[i].0 == pairs[i]@[0]@,
        wire_pairs(pairs)[i].1 == pairs[i]@[1]@,
{
}

/// A map that is listed has each of its keys in one pair, with its value there,
/// and there is no other pair.
pub proof fn a_listed_map_is_all_in_its_pairs(
    pairs: Seq<Pair>,
    map: Map<Seq<char>, Seq<char>>,
    key: Seq<char>,
)
    requires
        lists(pairs, map),
    ensures
        map.contains_key(key) <==> exists|i: int|
            0 <= i < pairs.len() && #[trigger] pairs[i] == (key, map[key]),
        forall|i: int, j: int|
            0 <= i < pairs.len() && 0 <= j < pairs.len() && (#[trigger] pairs[i]).0 == (
            #[trigger] pairs[j]).0 ==> i == j,
{
    crate::meta::pairs_map_domain(pairs, key);
    if map.contains_key(key) {
        let i = choose|i: int| 0 <= i < pairs.len() && #[trigger] pairs[i].0 == key;
        assert forall|j: int| i < j < pairs.len() implies #[trigger] pairs[j].0 != pairs[i].0 by {}
        the_last_pair_of_a_key_counts(pairs, i);
        assert(pairs[i] == (key, map[key]));
    }
    if exists|i: int| 0 <= i < pairs.len() && #[trigger] pairs[i] == (key, map[key]) {
        let i = choose|i: int| 0 <= i < pairs.len() && #[trigger] pairs[i] == (key, map[key]);
        assert(pairs[i].0 == key);
    }
}

} // verus!
