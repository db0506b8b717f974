use crate::matter::{AttributePath, AttributeValue};
use std::collections::HashMap;
use vstd::prelude::*;

verus! {

/// The map that collecting `pairs` in order gives: a later pair replaces an earlier one with
/// the same path.
pub open spec fn pairs_map(pairs: Seq<(AttributePath, AttributeValue)>) -> Map<
    AttributePath,
    AttributeValue,
>
    decreases pairs.len(),
{
    if pairs.len() == 0 {
        Map::empty()
    } else {
        pairs_map(pairs.drop_last()).insert(pairs.last().0, pairs.last().1)
    }
}

/// Collecting pairs keeps, for each path, the value of its last pair: a pair that no later pair
/// with the same path follows gives the value held for its path.
pub proof fn lemma_pairs_map_last_wins(pairs: Seq<(AttributePath, AttributeValue)>, i: int)
    requires
        0 <= i < pairs.len(),
        forall|j: int| i < j < pairs.len() ==> #[trigger] pairs[j].0 != pairs[i].0,
    ensures
        pairs_map(pairs).contains_key(pairs[i].0),
        pairs_map(pairs)[pairs[i].0] == pairs[i].1,
    decreases pairs.len(),
{
    if i < pairs.len() - 1 {
        let init = pairs.drop_last();
        assert(init[i] == pairs[i]);
        assert forall|j: int| i < j < init.len() implies #[trigger] init[j].0 != init[i].0 by {
            assert(init[j] == pairs[j]);
        }
        lemma_pairs_map_last_wins(init, i);
        assert(pairs[pairs.len() - 1].0 != pairs[i].0);
    }
}

/// Collecting pairs holds values only for the paths that occur among them.
pub proof fn lemma_pairs_map_only_read_paths(
    pairs: Seq<(AttributePath, AttributeValue)>,
    path: AttributePath,
)
    requires
        forall|j: int| 0 <= j < pairs.len() ==> #[trigger] pairs[j].0 != path,
    ensures
        !pairs_map(pairs).contains_key(path),
    decreases pairs.len(),
{
    if pairs.len() > 0 {
        let init = pairs.drop_last();
        assert forall|j: int| 0 <= j < init.len() implies #[trigger] init[j].0 != path by {
            assert(init[j] == pairs[j]);
        }
        lemma_pairs_map_only_read_paths(init, path);
    }
}

/// The number that keys `path` in the map: its endpoint, cluster and attribute side by side,
/// in 16, 32 and 32 bits.
pub open spec fn path_key(path: AttributePath) -> int {
    path.endpoint * 0x1_0000_0000_0000_0000 + path.cluster * 0x1_0000_0000 + path.attribute
}

/// Different paths have different keys, and every key fits in 128 bits.
pub proof fn lemma_path_key_injective(path: AttributePath, other: AttributePath)
    ensures
        0 <= path_key(path) < 0x1_0000_0000_0000_0000_0000,
        path_key(path) == path_key(other) ==> path == other,
{
    let (e1, c1, a1) = (path.endpoint as int, path.cluster as int, path.attribute as int);
    let (e2, c2, a2) = (other.endpoint as int, other.cluster as int, other.attribute as int);
    assert(path_key(path) == path_key(other) ==> e1 == e2 && c1 == c2 && a1 == a2) by (nonlinear_arith)
        requires
            path_key(path) == e1 * 0x1_0000_0000_0000_0000 + c1 * 0x1_0000_0000 + a1,
            path_key(other) == e2 * 0x1_0000_0000_0000_0000 + c2 * 0x1_0000_0000 + a2,
            0 <= e1 < 0x1_0000,
            0 <= e2 < 0x1_0000,
            0 <= c1 < 0x1_0000_0000,
            0 <= c2 < 0x1_0000_0000,
            0 <= a1 < 0x1_0000_0000,
            0 <= a2 < 0x1_0000_0000,
    ;
}

/// The key of `path` in the map.
fn key_of(path: &AttributePath) -> (key: u128)
    ensures
        key == path_key(*path),
{
    proof {
        lemma_path_key_injective(*path, *path);
    }
    (path.endpoint as u128) * 0x1_0000_0000_0000_0000 + (path.cluster as u128) * 0x1_0000_0000
        + (path.attribute as u128)
}

/// The values last read from a set of attributes, by path. A `HashMap` holds them, keyed by
/// each path's endpoint, cluster and attribute packed in one integer: Verus models a
/// `HashMap`'s keys for integers, and not for a struct or tuple of them.
pub struct AttributeValues {
    values: HashMap<u128, AttributeValue>,
}

impl View for AttributeValues {
    type V = Map<AttributePath, AttributeValue>;

    closed spec fn view(&self) -> Map<AttributePath, AttributeValue> {
        Map::new(
            |path: AttributePath| self.values@.contains_key(path_key(path) as u128),
            |path: AttributePath| self.values@[path_key(path) as u128],
        )
    }
}

impl AttributeValues {
    /// An empty map.
    pub fn new() -> (values: Self)
        ensures
            values@ == Map::<AttributePath, AttributeValue>::empty(),
    {
        let values = AttributeValues { values: HashMap::new() };
        proof {
            assert(values@ =~= Map::<AttributePath, AttributeValue>::empty());
        }
        values
    }

    /// The value held for `path`, if any.
    pub fn get(&self, path: &AttributePath) -> (value: Option<AttributeValue>)
        ensures
            value == (if self@.contains_key(*path) {
                Some(self@[*path])
            } else {
                None::<AttributeValue>
            }),
    {
        broadcast use vstd::std_specs::hash::group_hash_axioms;

        let key = key_of(path);
        match self.values.get(&key) {
            Some(value) => Some(*value),
            None => None,
        }
    }

    /// Holds `value` for `path`, in place of any value held for it before.
    pub fn insert(&mut self, path: AttributePath, value: AttributeValue)
        ensures
            final(self)@ == old(self)@.insert(path, value),
    {
        broadcast use vstd::std_specs::hash::group_hash_axioms;

        let key = key_of(&path);
        self.values.insert(key, value);
        proof {
            assert forall|other: AttributePath| #[trigger] old(self)@.insert(path, value).contains_key(other)
                == final(self)@.contains_key(other) && (final(self)@.contains_key(other) ==> old(
                self,
            )@.insert(path, value)[other] == final(self)@[other]) by {
                lemma_path_key_injective(path, other);
                lemma_path_key_injective(other, path);
            }
            assert(final(self)@ =~= old(self)@.insert(path, value));
        }
    }

    /// The map that collecting `pairs` in order gives, as a `HashMap` does: where a path occurs
    /// more than once, its last value stands.
    pub fn from_pairs(pairs: Vec<(AttributePath, AttributeValue)>) -> (values: Self)
        ensures
            values@ == pairs_map(pairs@),
    {
        let mut values = AttributeValues::new();
        let mut i: usize = 0;
        while i < pairs.len()
            invariant
                i <= pairs@.len(),
                values@ == pairs_map(pairs@.take(i as int)),
            decreases pairs@.len() - i,
        {
            values.insert(pairs[i].0, pairs[i].1);
            proof {
                assert(pairs@.take(i + 1).drop_last() =~= pairs@.take(i as int));
            }
            i = i + 1;
        }
        proof {
            assert(pairs@.take(pairs@.len() as int) =~= pairs@);
        }
        values
    }
}

} // verus!
