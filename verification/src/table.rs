//! Tables held as rows of key and value, and the maps they stand for.

use vstd::prelude::*;

verus! {

/// The map that a sequence of rows stands for: later rows win.
pub open spec fn map_of<K, V>(pairs: Seq<(K, V)>) -> Map<K, V>
    decreases pairs.len(),
{
    if pairs.len() == 0 {
        Map::empty()
    } else {
        map_of(pairs.drop_last()).insert(pairs.last().0, pairs.last().1)
    }
}

/// No key stands in two rows.
pub open spec fn distinct_keys<K, V>(pairs: Seq<(K, V)>) -> bool {
    forall|i: int, j: int| 0 <= i < j < pairs.len() ==> pairs[i].0 != pairs[j].0
}

/// The map of a sequence of rows is finite, and holds the keys of the rows.
pub proof fn lemma_map_of_domain<K, V>(pairs: Seq<(K, V)>)
    ensures
        map_of(pairs).dom().finite(),
        forall|key: K|
            map_of(pairs).dom().contains(key) <==> exists|i: int|
                0 <= i < pairs.len() && #[trigger] pairs[i].0 == key,
    decreases pairs.len(),
{
    if pairs.len() > 0 {
        let front = pairs.drop_last();
        lemma_map_of_domain(front);
        assert forall|key: K|
            map_of(pairs).dom().contains(key) <==> exists|i: int|
                0 <= i < pairs.len() && #[trigger] pairs[i].0 == key by {
            if map_of(pairs).dom().contains(key) {
                if key == pairs.last().0 {
                    assert(pairs[pairs.len() - 1].0 == key);
                } else {
                    let i = choose|i: int| 0 <= i < front.len() && #[trigger] front[i].0 == key;
                    assert(pairs[i].0 == key);
                }
            }
            if exists|i: int| 0 <= i < pairs.len() && #[trigger] pairs[i].0 == key {
                let i = choose|i: int| 0 <= i < pairs.len() && #[trigger] pairs[i].0 == key;
                if i < pairs.len() - 1 {
                    assert(front[i].0 == key);
                }
            }
        }
    }
}

/// Where no key stands twice, the map holds what each row holds.
pub proof fn lemma_map_of_row<K, V>(pairs: Seq<(K, V)>, row: int)
    requires
        distinct_keys(pairs),
        0 <= row < pairs.len(),
    ensures
        map_of(pairs).dom().contains(pairs[row].0),
        map_of(pairs)[pairs[row].0] == pairs[row].1,
    decreases pairs.len(),
{
    if row < pairs.len() - 1 {
        let front = pairs.drop_last();
        assert(distinct_keys(front)) by {
            assert forall|i: int, j: int| 0 <= i < j < front.len() implies front[i].0
                != front[j].0 by {
                assert(pairs[i].0 != pairs[j].0);
            }
        }
        lemma_map_of_row(front, row);
        assert(front[row] == pairs[row]);
    }
}

/// Replacing the value of one row sets the value of its key.
pub proof fn lemma_map_of_update<K, V>(pairs: Seq<(K, V)>, row: int, value: V)
    requires
        distinct_keys(pairs),
        0 <= row < pairs.len(),
    ensures
        map_of(pairs.update(row, (pairs[row].0, value))) == map_of(pairs).insert(
            pairs[row].0,
            value,
        ),
        distinct_keys(pairs.update(row, (pairs[row].0, value))),
    decreases pairs.len(),
{
    let key = pairs[row].0;
    let updated = pairs.update(row, (key, value));
    let front = pairs.drop_last();
    if row == pairs.len() - 1 {
        assert(updated.drop_last() =~= front);
        assert(map_of(updated) =~= map_of(pairs).insert(key, value));
    } else {
        assert(distinct_keys(front)) by {
            assert forall|i: int, j: int| 0 <= i < j < front.len() implies front[i].0
                != front[j].0 by {
                assert(pairs[i].0 != pairs[j].0);
            }
        }
        lemma_map_of_update(front, row, value);
        assert(updated.drop_last() =~= front.update(row, (front[row].0, value)));
        assert(updated.last() == pairs.last());
        assert(pairs[row].0 != pairs[pairs.len() - 1].0);
        assert(map_of(updated) =~= map_of(pairs).insert(key, value));
    }
    assert forall|i: int, j: int| 0 <= i < j < updated.len() implies updated[i].0
        != updated[j].0 by {
        assert(pairs[i].0 != pairs[j].0);
    }
}

/// A row with a new key adds that key.
pub proof fn lemma_map_of_push<K, V>(pairs: Seq<(K, V)>, key: K, value: V)
    requires
        distinct_keys(pairs),
        !map_of(pairs).dom().contains(key),
    ensures
        map_of(pairs.push((key, value))) == map_of(pairs).insert(key, value),
        distinct_keys(pairs.push((key, value))),
{
    let pushed = pairs.push((key, value));
    assert(pushed.drop_last() =~= pairs);
    lemma_map_of_domain(pairs);
    assert forall|i: int, j: int| 0 <= i < j < pushed.len() implies pushed[i].0
        != pushed[j].0 by {
        if j == pairs.len() {
            assert(pairs[i].0 != key);
        } else {
            assert(pairs[i].0 != pairs[j].0);
        }
    }
}

/// A key that stands in no row is not in the map.
pub proof fn lemma_map_of_absent<K, V>(pairs: Seq<(K, V)>, key: K)
    requires
        forall|i: int| 0 <= i < pairs.len() ==> (#[trigger] pairs[i]).0 != key,
    ensures
        !map_of(pairs).dom().contains(key),
{
    lemma_map_of_domain(pairs);
    if map_of(pairs).dom().contains(key) {
        let i = choose|i: int| 0 <= i < pairs.len() && #[trigger] pairs[i].0 == key;
        assert(pairs[i].0 != key);
    }
}

} // verus!
