//! Metadata: a finite map from text to text.
use vstd::prelude::*;
use vstd::string::StringExecFns;

use crate::text::text_eq;

verus! {

/// A key and its value.
pub type Pair = (Seq<char>, Seq<char>);

/// The map that a row of pairs stands for: of two pairs with the same key the
/// later one counts.
pub open spec fn pairs_map(pairs: Seq<Pair>) -> Map<Seq<char>, Seq<char>>
    decreases pairs.len(),
{
    if pairs.len() == 0 {
        Map::empty()
    } else {
        pairs_map(pairs.drop_last()).insert(pairs.last().0, pairs.last().1)
    }
}

/// Whether no key occurs twice in a row of pairs.
pub open spec fn distinct_keys(pairs: Seq<Pair>) -> bool {
    forall|i: int, j: int| 0 <= i < j < pairs.len() ==> #[trigger] pairs[i].0 != #[trigger] pairs[j].0
}

/// Whether a row of pairs lists a map: each key once, with its value.
pub open spec fn lists(pairs: Seq<Pair>, map: Map<Seq<char>, Seq<char>>) -> bool {
    distinct_keys(pairs) && pairs_map(pairs) == map
}

/// The keys of the map are the keys in the row.
pub proof fn pairs_map_domain(pairs: Seq<Pair>, key: Seq<char>)
    ensures
        pairs_map(pairs).contains_key(key) <==> exists|i: int|
            0 <= i < pairs.len() && #[trigger] pairs[i].0 == key,
    decreases pairs.len(),
{
    if pairs.len() > 0 {
        let front = pairs.drop_last();
        pairs_map_domain(front, key);
        if pairs_map(pairs).contains_key(key) {
            if pairs.last().0 == key {
                assert(pairs[pairs.len() - 1].0 == key);
            } else {
                let i = choose|i: int| 0 <= i < front.len() && #[trigger] front[i].0 == key;
                assert(pairs[i].0 == key);
            }
        }
        if exists|i: int| 0 <= i < pairs.len() && #[trigger] pairs[i].0 == key {
            let i = choose|i: int| 0 <= i < pairs.len() && #[trigger] pairs[i].0 == key;
            if i < front.len() {
                assert(front[i].0 == key);
            }
        }
    }
}

/// In a row without repeated keys every pair counts.
pub proof fn pairs_map_value(pairs: Seq<Pair>, i: int)
    requires
        distinct_keys(pairs),
        0 <= i < pairs.len(),
    ensures
        pairs_map(pairs).contains_key(pairs[i].0),
        pairs_map(pairs)[pairs[i].0] == pairs[i].1,
    decreases pairs.len(),
{
    if i < pairs.len() - 1 {
        let front = pairs.drop_last();
        assert forall|a: int, b: int| 0 <= a < b < front.len() implies #[trigger] front[a].0
            != #[trigger] front[b].0 by {
            assert(front[a] == pairs[a] && front[b] == pairs[b]);
        }
        pairs_map_value(front, i);
        assert(front[i] == pairs[i]);
        assert(pairs[i].0 != pairs[pairs.len() - 1].0);
    }
}

/// Writing a new value for the key of the `i`-th pair.
proof fn pairs_map_update(pairs: Seq<Pair>, i: int, value: Seq<char>)
    requires
        distinct_keys(pairs),
        0 <= i < pairs.len(),
    ensures
        distinct_keys(pairs.update(i, (pairs[i].0, value))),
        pairs_map(pairs.update(i, (pairs[i].0, value))) == pairs_map(pairs).insert(
            pairs[i].0,
            value,
        ),
    decreases pairs.len(),
{
    let next = pairs.update(i, (pairs[i].0, value));
    assert forall|a: int, b: int| 0 <= a < b < next.len() implies #[trigger] next[a].0
        != #[trigger] next[b].0 by {
        assert(next[a].0 == pairs[a].0 && next[b].0 == pairs[b].0);
    }
    let front = pairs.drop_last();
    if i < pairs.len() - 1 {
        assert forall|a: int, b: int| 0 <= a < b < front.len() implies #[trigger] front[a].0
            != #[trigger] front[b].0 by {
            assert(front[a] == pairs[a] && front[b] == pairs[b]);
        }
        pairs_map_update(front, i, value);
        assert(next.drop_last() =~= front.update(i, (front[i].0, value)));
        assert(pairs[i].0 != pairs[pairs.len() - 1].0);
        assert(pairs_map(next) =~= pairs_map(pairs).insert(pairs[i].0, value));
    } else {
        assert(next.drop_last() =~= front);
        assert(pairs_map(next) =~= pairs_map(pairs).insert(pairs[i].0, value));
    }
}

/// A finite map from text to text. Each key occurs once.
#[derive(Debug)]
pub struct Meta {
    entries: Vec<(String, String)>,
}

/// The pairs that stored entries stand for.
pub open spec fn entry_pairs(entries: Seq<(String, String)>) -> Seq<Pair> {
    entries.map_values(|e: (String, String)| (e.0@, e.1@))
}

impl View for Meta {
    type V = Map<Seq<char>, Seq<char>>;

    closed spec fn view(&self) -> Map<Seq<char>, Seq<char>> {
        pairs_map(entry_pairs(self.entries@))
    }
}

impl Meta {
    #[verifier::type_invariant]
    spec fn keys_occur_once(self) -> bool {
        distinct_keys(entry_pairs(self.entries@))
    }

    /// The empty map.
    pub fn new() -> (r: Self)
        ensures
            r@ == Map::<Seq<char>, Seq<char>>::empty(),
    {
        let entries: Vec<(String, String)> = Vec::new();
        assert(entry_pairs(entries@) =~= Seq::<Pair>::empty());
        Meta { entries }
    }

    /// Where a key is stored.
    fn position(entries: &Vec<(String, String)>, key: &str) -> (r: Option<usize>)
        ensures
            match r {
                Some(i) => i < entries@.len() && entries@[i as int].0@ == key@,
                None => forall|i: int| 0 <= i < entries@.len() ==> #[trigger] entries@[i].0@ != key@,
            },
    {
        let n: usize = entries.len();
        let mut i: usize = 0;
        while i < n
            invariant
                i <= n,
                n == entries@.len(),
                forall|j: int| 0 <= j < i ==> #[trigger] entries@[j].0@ != key@,
            decreases n - i,
        {
            if text_eq(entries[i].0.as_str(), key) {
                return Some(i);
            }
            i = i + 1;
        }
        None
    }

    /// The value of a key.
    pub fn get(&self, key: &str) -> (r: Option<&String>)
        ensures
            match r {
                Some(value) => self@.contains_key(key@) && self@[key@] == value@,
                None => !self@.contains_key(key@),
            },
    {
        proof {
            use_type_invariant(self);
            pairs_map_domain(entry_pairs(self.entries@), key@);
        }
        match Self::position(&self.entries, key) {
            Some(i) => {
                proof {
                    pairs_map_value(entry_pairs(self.entries@), i as int);
                }
                Some(&self.entries[i].1)
            },
            None => {
                assert(forall|i: int|
                    0 <= i < self.entries@.len() ==> #[trigger] entry_pairs(self.entries@)[i].0
                        == self.entries@[i].0@);
                None
            },
        }
    }

    /// Gives a key a value, in place of the one that it had.
    pub fn insert(&mut self, key: String, value: String)
        ensures
            final(self)@ == old(self)@.insert(key@, value@),
    {
        proof {
            use_type_invariant(&*self);
        }
        let mut entries: Vec<(String, String)> = Vec::new();
        assert(entry_pairs(entries@) =~= Seq::<Pair>::empty());
        std::mem::swap(&mut entries, &mut self.entries);
        let ghost before = entries@;
        match Self::position(&entries, key.as_str()) {
            Some(i) => {
                proof {
                    pairs_map_update(entry_pairs(before), i as int, value@);
                }
                entries.set(i, (key, value));
                assert(entry_pairs(entries@) =~= entry_pairs(before).update(
                    i as int,
                    (key@, value@),
                ));
            },
            None => {
                entries.push((key, value));
                let ghost pairs = entry_pairs(entries@);
                assert(pairs.drop_last() =~= entry_pairs(before));
                assert forall|a: int, b: int| 0 <= a < b < pairs.len() implies #[trigger] pairs[a].0
                    != #[trigger] pairs[b].0 by {
                    assert(pairs[a].0 == before[a].0@);
                    if b < before.len() {
                        assert(entry_pairs(before)[a].0 != entry_pairs(before)[b].0);
                    }
                }
            },
        }
        self.entries = entries;
    }

    /// The pairs of the map, each once, in the form in which they cross the
    /// guest boundary.
    pub fn to_pairs(&self) -> (r: Vec<[String; 2]>)
        ensures
            lists(wire_pairs(r@), self@),
    {
        proof {
            use_type_invariant(self);
        }
        let mut out: Vec<[String; 2]> = Vec::new();
        let n: usize = self.entries.len();
        let mut i: usize = 0;
        while i < n
            invariant
                i <= n,
                n == self.entries@.len(),
                wire_pairs(out@) =~= entry_pairs(self.entries@).take(i as int),
            decreases n - i,
        {
            let pair = [self.entries[i].0.clone(), self.entries[i].1.clone()];
            assert(pair@[0]@ == self.entries@[i as int].0@);
            assert(pair@[1]@ == self.entries@[i as int].1@);
            let ghost before = out@;
            out.push(pair);
            assert(wire_pairs(out@) =~= wire_pairs(before).push(
                entry_pairs(self.entries@)[i as int],
            ));
            i = i + 1;
        }
        assert(wire_pairs(out@) =~= entry_pairs(self.entries@));
        out
    }

    /// The map that a row of pairs stands for.
    pub fn from_pairs(pairs: &Vec<[String; 2]>) -> (r: Self)
        ensures
            r@ == pairs_map(wire_pairs(pairs@)),
    {
        let mut meta = Meta::new();
        let n: usize = pairs.len();
        let mut i: usize = 0;
        assert(wire_pairs(pairs@).take(0) =~= Seq::<Pair>::empty());
        while i < n
            invariant
                i <= n,
                n == pairs@.len(),
                meta@ == pairs_map(wire_pairs(pairs@).take(i as int)),
            decreases n - i,
        {
            let pair = &pairs[i];
            meta.insert(pair[0].clone(), pair[1].clone());
            assert(wire_pairs(pairs@).take(i + 1).drop_last() =~= wire_pairs(pairs@).take(
                i as int,
            ));
            i = i + 1;
        }
        assert(wire_pairs(pairs@).take(n as int) =~= wire_pairs(pairs@));
        meta
    }
}

/// The pairs that a wire list stands for.
pub open spec fn wire_pairs(pairs: Seq<[String; 2]>) -> Seq<Pair> {
    pairs.map_values(|p: [String; 2]| (p@[0]@, p@[1]@))
}

impl Clone for Meta {
    fn clone(&self) -> (r: Self)
        ensures
            r@ == self@,
    {
        let pairs = self.to_pairs();
        Meta::from_pairs(&pairs)
    }
}

} // verus!
