//! Balance maps: finite maps from an account key to an amount, and their sums.
//!
//! Every statement the ledger makes about "the sum of all balances" is a
//! statement about [`sum_of`]. The lemmas here say how a sum moves when one
//! entry of the map changes.

use vstd::prelude::*;

verus! {

/// The amount that `balances` holds for `key`; zero where the key is absent.
pub open spec fn balance_in<K>(balances: Map<K, nat>, key: K) -> nat {
    if balances.dom().contains(key) {
        balances[key]
    } else {
        0
    }
}

/// The sum of all amounts in a finite balance map.
pub open spec fn sum_of<K>(balances: Map<K, nat>) -> nat
    decreases balances.dom().len(),
{
    if balances.dom().finite() && balances.dom().len() > 0 {
        let key = balances.dom().choose();
        balances[key] + sum_of(balances.remove(key))
    } else {
        0
    }
}

/// Any one entry can be split off a sum: the sum is that entry plus the sum
/// of the rest.
pub proof fn lemma_sum_split<K>(balances: Map<K, nat>, key: K)
    requires
        balances.dom().finite(),
        balances.dom().contains(key),
    ensures
        sum_of(balances) == balances[key] + sum_of(balances.remove(key)),
    decreases balances.dom().len(),
{
    let chosen = balances.dom().choose();
    if chosen != key {
        let without_chosen = balances.remove(chosen);
        let without_key = balances.remove(key);
        lemma_sum_split(without_chosen, key);
        lemma_sum_split(without_key, chosen);
        assert(without_chosen.remove(key) =~= without_key.remove(chosen));
    }
}

/// Setting one entry changes the sum by the difference between the new
/// amount and the amount held before.
pub proof fn lemma_sum_insert<K>(balances: Map<K, nat>, key: K, amount: nat)
    requires
        balances.dom().finite(),
    ensures
        sum_of(balances.insert(key, amount)) == sum_of(balances) - balance_in(balances, key)
            + amount,
{
    let updated = balances.insert(key, amount);
    lemma_sum_split(updated, key);
    if balances.dom().contains(key) {
        lemma_sum_split(balances, key);
        assert(updated.remove(key) =~= balances.remove(key));
    } else {
        assert(updated.remove(key) =~= balances);
    }
}

/// No single balance exceeds the sum.
pub proof fn lemma_balance_le_sum<K>(balances: Map<K, nat>, key: K)
    requires
        balances.dom().finite(),
    ensures
        balance_in(balances, key) <= sum_of(balances),
{
    if balances.dom().contains(key) {
        lemma_sum_split(balances, key);
    }
}

/// The part of a balance map whose keys lie in `keys`.
pub open spec fn part_of<K>(balances: Map<K, nat>, keys: Set<K>) -> Map<K, nat> {
    balances.restrict(keys)
}

/// Setting one entry changes the sum of a part only where the key lies in
/// that part.
pub proof fn lemma_part_insert<K>(balances: Map<K, nat>, keys: Set<K>, key: K, amount: nat)
    requires
        balances.dom().finite(),
    ensures
        part_of(balances, keys).dom().finite(),
        keys.contains(key) ==> sum_of(part_of(balances.insert(key, amount), keys)) == sum_of(
            part_of(balances, keys),
        ) - balance_in(balances, key) + amount,
        !keys.contains(key) ==> sum_of(part_of(balances.insert(key, amount), keys)) == sum_of(
            part_of(balances, keys),
        ),
        balance_in(part_of(balances, keys), key) == if keys.contains(key) {
            balance_in(balances, key)
        } else {
            0
        },
{
    let part = part_of(balances, keys);
    assert(part.dom() =~= balances.dom().intersect(keys));
    if keys.contains(key) {
        assert(part_of(balances.insert(key, amount), keys) =~= part.insert(key, amount));
        lemma_sum_insert(part, key, amount);
    } else {
        assert(part_of(balances.insert(key, amount), keys) =~= part);
    }
}

/// A sum splits over a part and its complement.
pub proof fn lemma_sum_parts<K>(balances: Map<K, nat>, keys: Set<K>)
    requires
        balances.dom().finite(),
    ensures
        sum_of(balances) == sum_of(part_of(balances, keys)) + sum_of(
            part_of(balances, keys.complement()),
        ),
    decreases balances.dom().len(),
{
    let inside = part_of(balances, keys);
    let outside = part_of(balances, keys.complement());
    if balances.dom().len() == 0 {
        assert(inside =~= Map::<K, nat>::empty());
        assert(outside =~= Map::<K, nat>::empty());
    } else {
        let key = balances.dom().choose();
        let rest = balances.remove(key);
        lemma_sum_parts(rest, keys);
        assert(rest.insert(key, balances[key]) =~= balances);
        lemma_part_insert(rest, keys, key, balances[key]);
        lemma_part_insert(rest, keys.complement(), key, balances[key]);
    }
}

} // verus!
