//! Accounts of the two balance domains.

use crate::account_id::AccountId;
use crate::primitives::H160;
use vstd::prelude::*;
use vstd::std_specs::cmp::PartialEqSpecImpl;

verus! {

/// One of the two domains in which the bridged asset is held.
#[derive(Clone, Copy, Debug, PartialEq, Eq, Structural)]
pub enum Domain {
    /// The host ledger, where an account is named by an [`AccountId`].
    Host,
    /// The embedded virtual machine, where an account is a 20-byte address.
    Vm,
}

/// What identifies an account in specifications: its domain together with
/// the characters of its identifier or the bytes of its address.
pub enum AccountKey {
    Host(Seq<char>),
    Vm(Seq<u8>),
}

impl AccountKey {
    /// The domain that holds the account.
    pub open spec fn domain(self) -> Domain {
        match self {
            AccountKey::Host(_) => Domain::Host,
            AccountKey::Vm(_) => Domain::Vm,
        }
    }
}

/// All account keys of one domain.
pub open spec fn keys_of(domain: Domain) -> Set<AccountKey> {
    Set::new(|key: AccountKey| key.domain() == domain)
}

/// An account that can hold the bridged asset.
#[derive(Debug, Eq)]
pub enum Account {
    /// An account of the host ledger.
    Host(AccountId),
    /// An address of the embedded virtual machine.
    Vm(H160),
}

impl View for Account {
    type V = AccountKey;

    open spec fn view(&self) -> AccountKey {
        match self {
            Account::Host(id) => AccountKey::Host(id@),
            Account::Vm(address) => AccountKey::Vm(address@),
        }
    }
}

impl Account {
    /// The domain that holds the account.
    pub fn domain(&self) -> (r: Domain)
        ensures
            r == self@.domain(),
    {
        match self {
            Account::Host(_) => Domain::Host,
            Account::Vm(_) => Domain::Vm,
        }
    }
}

impl Clone for Account {
    fn clone(&self) -> (r: Self)
        ensures
            r@ == self@,
    {
        match self {
            Account::Host(id) => Account::Host(id.clone()),
            Account::Vm(address) => Account::Vm(*address),
        }
    }
}

impl PartialEq for Account {
    fn eq(&self, other: &Self) -> (r: bool) {
        match (self, other) {
            (Account::Host(a), Account::Host(b)) => *a == *b,
            (Account::Vm(a), Account::Vm(b)) => *a == *b,
            _ => false,
        }
    }
}

impl PartialEqSpecImpl for Account {
    open spec fn obeys_eq_spec() -> bool {
        true
    }

    open spec fn eq_spec(&self, other: &Self) -> bool {
        self@ == other@
    }
}

} // verus!
