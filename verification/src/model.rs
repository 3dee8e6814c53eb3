//! The ledger as a mathematical object: a finite map of balances, the total
//! supply, and the transfers that wait for their callback.
//!
//! Every executable operation of the ledger is specified as one of the
//! functions on [`LedgerView`] below.

use crate::account::{keys_of, AccountKey, Domain};
use crate::balances::{balance_in, lemma_balance_le_sum, lemma_part_insert, part_of, sum_of};
use vstd::prelude::*;

verus! {

/// A debit asked for more than the account holds.
#[derive(Clone, Copy, Debug, PartialEq, Eq, Structural)]
pub struct InsufficientBalance;

/// Why the ledger refused an operation. A refused operation changes nothing.
#[derive(Clone, Copy, Debug, PartialEq, Eq, Structural)]
pub enum AccountingError {
    /// The source holds less than the amount.
    InsufficientBalance,
    /// The fee is larger than the amount it is taken from.
    FeeExceedsAmount,
    /// The total supply would no longer fit in 128 bits.
    SupplyOverflow,
    /// No transfer like the one named waits for its callback.
    UnknownTransfer,
    /// Balances that do not add up to the total supply they came with, or
    /// that name one account twice.
    InvariantViolation,
}

/// What the callback of a transfer reported.
#[derive(Clone, Copy, Debug, PartialEq, Eq, Structural)]
pub enum CallbackOutcome {
    /// The receiver accepted the funds.
    Confirmed,
    /// The receiver failed: the funds go back.
    Failed,
}

/// A movement of `amount` out of `from`, of which `fee` goes to the fee
/// collector and the rest to `to`.
pub struct Movement {
    pub from: AccountKey,
    pub to: AccountKey,
    pub amount: nat,
    pub fee: nat,
}

/// The state of the ledger.
pub struct LedgerView {
    /// The balance of every account that the ledger has seen.
    pub balances: Map<AccountKey, nat>,
    /// The total supply of the bridged asset.
    pub total: nat,
    /// Transfers whose callback has not reported yet, oldest first.
    pub pending: Seq<Movement>,
    /// The account that collects fees.
    pub fee_collector: AccountKey,
}

impl LedgerView {
    /// A ledger without balances, supply or pending transfers.
    pub open spec fn empty(fee_collector: AccountKey) -> LedgerView {
        LedgerView {
            balances: Map::empty(),
            total: 0,
            pending: Seq::empty(),
            fee_collector,
        }
    }

    /// The balance of `account`; zero for an account never seen.
    pub open spec fn balance(self, account: AccountKey) -> nat {
        balance_in(self.balances, account)
    }

    /// The sum of all balances of one domain.
    pub open spec fn supply_in(self, domain: Domain) -> nat {
        sum_of(part_of(self.balances, keys_of(domain)))
    }

    /// Conservation: the total supply is the sum of all host-ledger balances
    /// plus the sum of all balances of the embedded virtual machine.
    pub open spec fn conserved(self) -> bool {
        &&& self.balances.dom().finite()
        &&& self.total == self.supply_in(Domain::Host) + self.supply_in(Domain::Vm)
    }

    /// The ledger after `amount` was minted to `account`.
    pub open spec fn credit(self, account: AccountKey, amount: nat) -> LedgerView {
        LedgerView {
            balances: self.balances.insert(account, self.balance(account) + amount),
            total: self.total + amount,
            ..self
        }
    }

    /// The ledger after `amount` was burned from `account`, which must hold
    /// that much.
    pub open spec fn debit(self, account: AccountKey, amount: nat) -> LedgerView {
        LedgerView {
            balances: self.balances.insert(account, (self.balance(account) - amount) as nat),
            total: (self.total - amount) as nat,
            ..self
        }
    }

    /// Whether `amount` can leave `from` with `fee` taken out of it.
    pub open spec fn can_transfer(self, from: AccountKey, amount: nat, fee: nat) -> bool {
        fee <= amount && amount <= self.balance(from)
    }

    /// The ledger after a transfer: `amount` leaves `from`, `amount - fee`
    /// reaches `to`, and `fee` reaches the fee collector.
    pub open spec fn transfer(self, from: AccountKey, to: AccountKey, amount: nat, fee: nat)
        -> LedgerView {
        self.debit(from, amount).credit(to, (amount - fee) as nat).credit(self.fee_collector, fee)
    }

    /// Whether `amount` can be minted with `fee` taken out of it.
    pub open spec fn can_mint(self, amount: nat, fee: nat) -> bool {
        fee <= amount && self.total + amount <= u128::MAX
    }

    /// The ledger after a deposit: `amount` is minted, of which `fee`
    /// reaches the fee collector and the rest reaches `to`.
    pub open spec fn mint(self, to: AccountKey, amount: nat, fee: nat) -> LedgerView {
        self.credit(to, (amount - fee) as nat).credit(self.fee_collector, fee)
    }

    /// Whether the fee collector and the receiver still hold what a transfer
    /// gave them.
    pub open spec fn can_roll_back(self, movement: Movement) -> bool {
        &&& movement.fee <= movement.amount
        &&& movement.fee <= self.balance(self.fee_collector)
        &&& movement.amount - movement.fee <= self.debit(self.fee_collector, movement.fee).balance(
            movement.to,
        )
    }

    /// The ledger after a transfer was undone: the fee leaves the fee
    /// collector, `amount - fee` leaves the receiver, and `amount` returns to
    /// the sender.
    pub open spec fn roll_back(self, movement: Movement) -> LedgerView {
        self.debit(self.fee_collector, movement.fee).debit(
            movement.to,
            (movement.amount - movement.fee) as nat,
        ).credit(movement.from, movement.amount)
    }

    /// The ledger with one more transfer waiting for its callback.
    pub open spec fn await_callback(self, movement: Movement) -> LedgerView {
        LedgerView { pending: self.pending.push(movement), ..self }
    }

    /// The ledger without the waiting transfer at `index`.
    pub open spec fn settle(self, index: int) -> LedgerView {
        LedgerView { pending: self.pending.remove(index), ..self }
    }

    /// What a callback's report does to the ledger, and what the caller is
    /// told. A confirmed transfer just stops waiting. A failed one is rolled
    /// back, if the funds are still where the transfer put them.
    pub open spec fn resolve(self, movement: Movement, outcome: CallbackOutcome) -> (
        LedgerView,
        Result<(), AccountingError>,
    ) {
        match self.oldest_pending(movement) {
            None => (self, Err(AccountingError::UnknownTransfer)),
            Some(index) => match outcome {
                CallbackOutcome::Confirmed => (self.settle(index), Ok(())),
                CallbackOutcome::Failed => if self.can_roll_back(movement) {
                    (self.roll_back(movement).settle(index), Ok(()))
                } else {
                    (self, Err(AccountingError::InsufficientBalance))
                },
            },
        }
    }

    /// The position of the oldest waiting transfer equal to `movement`.
    pub open spec fn oldest_pending(self, movement: Movement) -> Option<int> {
        if exists|i: int| 0 <= i < self.pending.len() && self.pending[i] == movement {
            Some(
                choose|i: int|
                    0 <= i < self.pending.len() && self.pending[i] == movement && forall|j: int|
                        0 <= j < i ==> self.pending[j] != movement,
            )
        } else {
            None
        }
    }
}

/// No balance exceeds the supply of its domain, nor the total supply.
pub proof fn lemma_balance_le_total(ledger: LedgerView, account: AccountKey)
    requires
        ledger.conserved(),
    ensures
        ledger.balance(account) <= ledger.supply_in(account.domain()),
        ledger.balance(account) <= ledger.total,
{
    let keys = keys_of(account.domain());
    lemma_part_insert(ledger.balances, keys, account, 0);
    lemma_balance_le_sum(part_of(ledger.balances, keys), account);
}

/// A credit raises the supply of the account's domain, and nothing else.
pub proof fn lemma_credit(ledger: LedgerView, account: AccountKey, amount: nat)
    requires
        ledger.conserved(),
    ensures
        ledger.credit(account, amount).conserved(),
        ledger.credit(account, amount).supply_in(account.domain()) == ledger.supply_in(
            account.domain(),
        ) + amount,
        forall|domain: Domain|
            domain != account.domain() ==> ledger.credit(account, amount).supply_in(domain)
                == ledger.supply_in(domain),
        ledger.credit(account, amount).balance(account) == ledger.balance(account) + amount,
        forall|other: AccountKey|
            other != account ==> ledger.credit(account, amount).balance(other) == ledger.balance(
                other,
            ),
{
    let updated = ledger.balance(account) + amount;
    lemma_part_insert(ledger.balances, keys_of(Domain::Host), account, updated);
    lemma_part_insert(ledger.balances, keys_of(Domain::Vm), account, updated);
}

/// A debit within the balance lowers the supply of the account's domain,
/// and nothing else.
pub proof fn lemma_debit(ledger: LedgerView, account: AccountKey, amount: nat)
    requires
        ledger.conserved(),
        amount <= ledger.balance(account),
    ensures
        ledger.debit(account, amount).conserved(),
        ledger.debit(account, amount).total == ledger.total - amount,
        ledger.debit(account, amount).supply_in(account.domain()) == ledger.supply_in(
            account.domain(),
        ) - amount,
        forall|domain: Domain|
            domain != account.domain() ==> ledger.debit(account, amount).supply_in(domain)
                == ledger.supply_in(domain),
        ledger.debit(account, amount).balance(account) == ledger.balance(account) - amount,
        forall|other: AccountKey|
            other != account ==> ledger.debit(account, amount).balance(other) == ledger.balance(
                other,
            ),
{
    let updated = (ledger.balance(account) - amount) as nat;
    lemma_balance_le_total(ledger, account);
    lemma_part_insert(ledger.balances, keys_of(Domain::Host), account, updated);
    lemma_part_insert(ledger.balances, keys_of(Domain::Vm), account, updated);
}

/// The part of a movement's effect that falls on `account`, as what it
/// loses and what it gains: the source loses the amount, the receiver gains
/// the amount less the fee, the fee collector gains the fee. An account that
/// plays several of these parts gets the sum of them.
pub open spec fn loss_of(account: AccountKey, from: AccountKey, amount: nat) -> nat {
    if account == from {
        amount
    } else {
        0
    }
}

/// See [`loss_of`].
pub open spec fn gain_of(
    account: AccountKey,
    to: AccountKey,
    collector: AccountKey,
    amount: nat,
    fee: nat,
) -> nat {
    (if account == to {
        (amount - fee) as nat
    } else {
        0
    }) + (if account == collector {
        fee
    } else {
        0
    })
}

/// Fee conservation in a transfer: the source loses `amount`, the receiver
/// gains `amount - fee`, the fee collector gains `fee`, every other balance
/// and the total supply stay as they were, and conservation is kept.
pub proof fn law_transfer_fee_conservation(
    ledger: LedgerView,
    from: AccountKey,
    to: AccountKey,
    amount: nat,
    fee: nat,
)
    requires
        ledger.conserved(),
        ledger.can_transfer(from, amount, fee),
    ensures
        ledger.transfer(from, to, amount, fee).conserved(),
        ledger.transfer(from, to, amount, fee).total == ledger.total,
        ledger.transfer(from, to, amount, fee).pending == ledger.pending,
        ledger.transfer(from, to, amount, fee).fee_collector == ledger.fee_collector,
        forall|account: AccountKey|
            #[trigger] ledger.transfer(from, to, amount, fee).balance(account) == ledger.balance(
                account,
            ) - loss_of(account, from, amount) + gain_of(
                account,
                to,
                ledger.fee_collector,
                amount,
                fee,
            ),
{
    let rest = (amount - fee) as nat;
    let taken = ledger.debit(from, amount);
    let given = taken.credit(to, rest);
    lemma_debit(ledger, from, amount);
    lemma_credit(taken, to, rest);
    lemma_credit(given, ledger.fee_collector, fee);
}

/// A deposit raises the total supply by `amount`: the receiver gains
/// `amount - fee`, the fee collector gains `fee`, nothing else changes, and
/// conservation is kept.
pub proof fn law_mint_raises_supply(ledger: LedgerView, to: AccountKey, amount: nat, fee: nat)
    requires
        ledger.conserved(),
        fee <= amount,
    ensures
        ledger.mint(to, amount, fee).conserved(),
        ledger.mint(to, amount, fee).total == ledger.total + amount,
        ledger.mint(to, amount, fee).pending == ledger.pending,
        ledger.mint(to, amount, fee).fee_collector == ledger.fee_collector,
        forall|account: AccountKey|
            #[trigger] ledger.mint(to, amount, fee).balance(account) == ledger.balance(account)
                + gain_of(account, to, ledger.fee_collector, amount, fee),
{
    let rest = (amount - fee) as nat;
    lemma_credit(ledger, to, rest);
    lemma_credit(ledger.credit(to, rest), ledger.fee_collector, fee);
}

/// Undoing a movement takes back exactly what a transfer of it gives: the
/// total supply stays as it was and conservation is kept.
pub proof fn lemma_roll_back(ledger: LedgerView, movement: Movement)
    requires
        ledger.conserved(),
        ledger.can_roll_back(movement),
    ensures
        ledger.roll_back(movement).conserved(),
        ledger.roll_back(movement).total == ledger.total,
        ledger.roll_back(movement).pending == ledger.pending,
        ledger.roll_back(movement).fee_collector == ledger.fee_collector,
        forall|account: AccountKey|
            #[trigger] ledger.roll_back(movement).balance(account) == ledger.balance(account)
                + loss_of(account, movement.from, movement.amount) - gain_of(
                account,
                movement.to,
                ledger.fee_collector,
                movement.amount,
                movement.fee,
            ),
{
    let rest = (movement.amount - movement.fee) as nat;
    let without_fee = ledger.debit(ledger.fee_collector, movement.fee);
    let without_rest = without_fee.debit(movement.to, rest);
    lemma_debit(ledger, ledger.fee_collector, movement.fee);
    lemma_debit(without_fee, movement.to, rest);
    lemma_balance_le_total(ledger, ledger.fee_collector);
    lemma_balance_le_total(without_fee, movement.to);
    lemma_credit(without_rest, movement.from, movement.amount);
}

/// The compensating transaction is exact: a transfer can always be undone
/// at once, and undoing it restores every balance and the total supply.
pub proof fn law_roll_back_restores(ledger: LedgerView, movement: Movement)
    requires
        ledger.conserved(),
        ledger.can_transfer(movement.from, movement.amount, movement.fee),
    ensures
        ledger.transfer(movement.from, movement.to, movement.amount, movement.fee).can_roll_back(
            movement,
        ),
        ledger.transfer(movement.from, movement.to, movement.amount, movement.fee).roll_back(
            movement,
        ).total == ledger.total,
        forall|account: AccountKey|
            #[trigger] ledger.transfer(
                movement.from,
                movement.to,
                movement.amount,
                movement.fee,
            ).roll_back(movement).balance(account) == ledger.balance(account),
{
    let moved = ledger.transfer(movement.from, movement.to, movement.amount, movement.fee);
    law_transfer_fee_conservation(
        ledger,
        movement.from,
        movement.to,
        movement.amount,
        movement.fee,
    );
    assert(moved.balance(moved.fee_collector) >= movement.fee);
    lemma_debit(moved, moved.fee_collector, movement.fee);
    assert(moved.balance(movement.to) == ledger.balance(movement.to) - loss_of(
        movement.to,
        movement.from,
        movement.amount,
    ) + gain_of(movement.to, movement.to, ledger.fee_collector, movement.amount, movement.fee));
    assert(moved.can_roll_back(movement));
    lemma_roll_back(moved, movement);
}

} // verus!
