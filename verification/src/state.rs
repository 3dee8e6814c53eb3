//! The basic records of accounts that a backend executes against, and the
//! direct change of one record.

use crate::primitives::{H160, U256};
use crate::table::{
    distinct_keys, lemma_map_of_absent, lemma_map_of_domain, lemma_map_of_push, lemma_map_of_row,
    lemma_map_of_update, map_of,
};
use vstd::prelude::*;

verus! {

/// The basic record of an account: its balance and its nonce.
#[derive(Clone, Copy, Debug, PartialEq, Eq)]
pub struct Basic {
    pub balance: U256,
    pub nonce: U256,
}

/// A change of the basic record of one account.
#[derive(Clone, Copy, Debug, PartialEq, Eq)]
pub struct ApplyModify {
    pub address: H160,
    pub basic_balance: U256,
    pub basic_nonce: U256,
}

impl ApplyModify {
    /// The record that the change sets.
    pub open spec fn record(&self) -> Basic {
        Basic { balance: self.basic_balance, nonce: self.basic_nonce }
    }
}

/// The basic records of all accounts that were ever written.
pub struct ContractState {
    rows: Vec<(H160, Basic)>,
}

/// The rows of the state as pairs of address bytes and record.
spec fn pairs_of(rows: Seq<(H160, Basic)>) -> Seq<(Seq<u8>, Basic)> {
    rows.map_values(|row: (H160, Basic)| (row.0@, row.1))
}

impl View for ContractState {
    type V = Map<Seq<u8>, Basic>;

    closed spec fn view(&self) -> Map<Seq<u8>, Basic> {
        map_of(pairs_of(self.rows@))
    }
}

impl ContractState {
    /// No address has two rows.
    pub closed spec fn wf(&self) -> bool {
        distinct_keys(pairs_of(self.rows@))
    }

    /// A state without records.
    pub fn new() -> (r: Self)
        ensures
            r.wf(),
            r@ == Map::<Seq<u8>, Basic>::empty(),
    {
        let r = ContractState { rows: Vec::new() };
        assert(pairs_of(r.rows@) =~= Seq::empty());
        r
    }

    /// The row that holds `address`, if there is one.
    fn find(&self, address: &H160) -> (r: Option<usize>)
        ensures
            match r {
                Some(row) => row < self.rows.len() && self.rows[row as int].0@ == address@,
                None => forall|i: int| 0 <= i < self.rows.len() ==> self.rows[i].0@ != address@,
            },
    {
        let mut row: usize = 0;
        while row < self.rows.len()
            invariant
                row <= self.rows.len(),
                forall|i: int| 0 <= i < row ==> self.rows[i].0@ != address@,
            decreases self.rows.len() - row,
        {
            if self.rows[row].0 == *address {
                return Some(row);
            }
            row += 1;
        }
        None
    }

    /// The record of `address`, if one was ever written.
    pub fn basic(&self, address: &H160) -> (r: Option<Basic>)
        requires
            self.wf(),
        ensures
            r is Some <==> self@.dom().contains(address@),
            r is Some ==> r == Some(self@[address@]),
    {
        let found = self.find(address);
        proof {
            let pairs = pairs_of(self.rows@);
            match found {
                Some(row) => {
                    lemma_map_of_row(pairs, row as int);
                },
                None => {
                    lemma_map_of_absent(pairs, address@);
                },
            }
        }
        match found {
            Some(row) => Some(self.rows[row].1),
            None => None,
        }
    }

    /// Sets the record of `address`.
    fn set(&mut self, address: H160, record: Basic)
        requires
            old(self).wf(),
        ensures
            final(self).wf(),
            final(self)@ == old(self)@.insert(address@, record),
    {
        let ghost pairs = pairs_of(self.rows@);
        let found = self.find(&address);
        match found {
            Some(row) => {
                proof {
                    lemma_map_of_update(pairs, row as int, record);
                }
                self.rows.set(row, (address, record));
                assert(pairs_of(self.rows@) =~= pairs.update(row as int, (address@, record)));
            },
            None => {
                proof {
                    lemma_map_of_absent(pairs, address@);
                    lemma_map_of_push(pairs, address@, record);
                }
                self.rows.push((address, record));
                assert(pairs_of(self.rows@) =~= pairs.push((address@, record)));
            },
        }
    }
}

/// Applies a change to the state: the account at the change's address gets
/// the change's balance and nonce, whether or not it had a record before.
/// Its code and storage are not touched, and no other account changes.
pub fn apply(state: &mut ContractState, state_change: ApplyModify)
    requires
        old(state).wf(),
    ensures
        final(state).wf(),
        final(state)@ == old(state)@.insert(state_change.address@, state_change.record()),
{
    let record = Basic { balance: state_change.basic_balance, nonce: state_change.basic_nonce };
    state.set(state_change.address, record);
}

} // verus!
