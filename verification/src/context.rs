//! What every execution is given: the transaction and the block.

use crate::account_id::AccountId;
use crate::primitives::{H160, H256, U256, Wei};
use vstd::prelude::*;

verus! {

/// The transaction to execute. It is made once per invocation and not
/// changed afterwards.
#[derive(Debug, Clone)]
pub struct TransactionInfo {
    /// The address that sends the transaction.
    pub origin: H160,
    /// The amount sent along.
    pub value: Wei,
    /// The code to deploy, or the data of the call.
    pub input: Vec<u8>,
    /// The contract to call; none where the transaction creates a contract.
    pub address: Option<H160>,
    /// The most gas that the execution may use.
    pub gas_limit: u64,
    /// The addresses and storage keys that the transaction declares, in
    /// their order.
    pub access_list: Vec<(H160, Vec<H256>)>,
}

impl TransactionInfo {
    /// The transaction may be handed to `transact_create`: it names no
    /// target and allows some gas.
    pub open spec fn fit_for_create(&self) -> bool {
        self.address is None && self.gas_limit > 0
    }

    /// The transaction may be handed to `transact_call` or `view`: it names
    /// its target and allows some gas.
    pub open spec fn fit_for_call(&self) -> bool {
        self.address is Some && self.gas_limit > 0
    }

    /// Whether the transaction creates a contract.
    pub fn is_create(&self) -> (r: bool)
        ensures
            r == (self.address is None),
    {
        self.address.is_none()
    }

    /// Whether the transaction may be handed to `transact_create`.
    pub fn is_fit_for_create(&self) -> (r: bool)
        ensures
            r == self.fit_for_create(),
    {
        self.address.is_none() && self.gas_limit > 0
    }

    /// Whether the transaction may be handed to `transact_call` or `view`.
    pub fn is_fit_for_call(&self) -> (r: bool)
        ensures
            r == self.fit_for_call(),
    {
        self.address.is_some() && self.gas_limit > 0
    }
}

impl Default for TransactionInfo {
    /// A transaction from the zero address that sends nothing, carries no
    /// input, names no target and allows no gas.
    fn default() -> (r: Self)
        ensures
            r.origin@ == Seq::new(20, |i: int| 0u8),
            r.value.value() == 0,
            r.input@ == Seq::<u8>::empty(),
            r.address is None,
            r.gas_limit == 0,
            r.access_list@ == Seq::<(H160, Vec<H256>)>::empty(),
    {
        TransactionInfo {
            origin: H160::zero(),
            value: Wei::zero(),
            input: Vec::new(),
            address: None,
            gas_limit: 0,
            access_list: Vec::new(),
        }
    }
}

/// The block in which the transaction executes. All backends that run
/// within one call read the same block.
#[derive(Debug, Clone)]
pub struct BlockInfo {
    /// The price of one unit of gas.
    pub gas_price: U256,
    /// The account of the host ledger that is executing.
    pub current_account_id: AccountId,
    /// The identifier of the chain, as 32 bytes.
    pub chain_id: [u8; 32],
}

impl Default for BlockInfo {
    /// A block with a gas price of zero, the default account and a chain
    /// identifier of zero.
    fn default() -> (r: Self)
        ensures
            r.gas_price.value() == 0,
            r.current_account_id@ == Seq::<char>::empty(),
            r.chain_id@ == Seq::new(32, |i: int| 0u8),
    {
        let r = BlockInfo {
            gas_price: U256::zero(),
            current_account_id: AccountId::default(),
            chain_id: [0u8; 32],
        };
        assert(r.chain_id@ =~= Seq::new(32, |i: int| 0u8));
        r
    }
}

} // verus!
