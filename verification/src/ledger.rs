//! The ledger accounting core: balances of both domains, the total supply,
//! and the operations that mint, burn and move the bridged asset.

use crate::account::{keys_of, Account, AccountKey, Domain};
use crate::balances::{lemma_sum_insert, lemma_sum_parts, part_of, sum_of};
use crate::model::{
    lemma_balance_le_total, lemma_credit, lemma_debit, AccountingError, CallbackOutcome,
    InsufficientBalance, LedgerView, Movement,
};
use crate::table::{
    distinct_keys, lemma_map_of_absent, lemma_map_of_domain, lemma_map_of_push, lemma_map_of_row,
    lemma_map_of_update, map_of,
};
use vstd::prelude::*;
use vstd::std_specs::cmp::PartialEqSpecImpl;

verus! {

/// A transfer that was applied and now waits for its callback.
#[derive(Debug, Eq)]
pub struct PendingTransfer {
    pub from: Account,
    pub to: Account,
    pub amount: u128,
    pub fee: u128,
}

impl View for PendingTransfer {
    type V = Movement;

    open spec fn view(&self) -> Movement {
        Movement {
            from: self.from@,
            to: self.to@,
            amount: self.amount as nat,
            fee: self.fee as nat,
        }
    }
}

impl Clone for PendingTransfer {
    fn clone(&self) -> (r: Self)
        ensures
            r@ == self@,
    {
        PendingTransfer {
            from: self.from.clone(),
            to: self.to.clone(),
            amount: self.amount,
            fee: self.fee,
        }
    }
}

impl PartialEq for PendingTransfer {
    fn eq(&self, other: &Self) -> (r: bool) {
        self.from == other.from && self.to == other.to && self.amount == other.amount && self.fee
            == other.fee
    }
}

impl PartialEqSpecImpl for PendingTransfer {
    open spec fn obeys_eq_spec() -> bool {
        true
    }

    open spec fn eq_spec(&self, other: &Self) -> bool {
        self@ == other@
    }
}

/// The movements that a sequence of waiting transfers stands for, in their
/// order.
pub open spec fn movements_of(waiting: Seq<PendingTransfer>) -> Seq<Movement> {
    waiting.map_values(|transfer: PendingTransfer| transfer@)
}

/// One row of the balance table.
struct Entry {
    account: Account,
    balance: u128,
}

/// The rows of a table as pairs of key and amount.
spec fn pairs_of(entries: Seq<Entry>) -> Seq<(AccountKey, nat)> {
    entries.map_values(|entry: Entry| (entry.account@, entry.balance as nat))
}

/// Balances as they are stored outside the ledger: rows of account and
/// amount.
pub open spec fn stored_pairs(rows: Seq<(Account, u128)>) -> Seq<(AccountKey, nat)> {
    rows.map_values(|row: (Account, u128)| (row.0@, row.1 as nat))
}

/// The sum of the amounts of all rows.
pub open spec fn stored_sum(rows: Seq<(Account, u128)>) -> nat
    decreases rows.len(),
{
    if rows.len() == 0 {
        0
    } else {
        stored_sum(rows.drop_last()) + rows.last().1 as nat
    }
}

/// The first rows of a table never sum to more than the whole table.
proof fn lemma_stored_sum_grows(rows: Seq<(Account, u128)>, count: int)
    requires
        0 <= count <= rows.len(),
    ensures
        stored_sum(rows.take(count)) <= stored_sum(rows),
    decreases rows.len(),
{
    if count == rows.len() {
        assert(rows.take(count) =~= rows);
    } else {
        lemma_stored_sum_grows(rows.drop_last(), count);
        assert(rows.drop_last().take(count) =~= rows.take(count));
    }
}

/// Where no account has two rows, the rows sum to the sum of the map they
/// stand for.
proof fn lemma_stored_sum_is_map_sum(rows: Seq<(Account, u128)>)
    requires
        distinct_keys(stored_pairs(rows)),
    ensures
        stored_sum(rows) == sum_of(map_of(stored_pairs(rows))),
    decreases rows.len(),
{
    let pairs = stored_pairs(rows);
    if rows.len() > 0 {
        let front = rows.drop_last();
        assert(stored_pairs(front) =~= pairs.drop_last());
        assert(distinct_keys(stored_pairs(front))) by {
            assert forall|i: int, j: int| 0 <= i < j < front.len() implies stored_pairs(front)[i].0
                != stored_pairs(front)[j].0 by {
                assert(pairs[i].0 != pairs[j].0);
            }
        }
        lemma_stored_sum_is_map_sum(front);
        lemma_map_of_domain(pairs.drop_last());
        assert forall|i: int| 0 <= i < pairs.drop_last().len() implies (
        #[trigger] pairs.drop_last()[i]).0 != pairs.last().0 by {
            assert(pairs[i].0 != pairs[pairs.len() - 1].0);
        }
        lemma_map_of_absent(pairs.drop_last(), pairs.last().0);
        lemma_sum_insert(map_of(pairs.drop_last()), pairs.last().0, pairs.last().1);
    }
}

/// The two domains are all there is: the sum of all balances is the sum of
/// the supplies of both.
proof fn lemma_supplies_are_all(ledger: LedgerView)
    requires
        ledger.balances.dom().finite(),
    ensures
        sum_of(ledger.balances) == ledger.supply_in(Domain::Host) + ledger.supply_in(Domain::Vm),
{
    lemma_sum_parts(ledger.balances, keys_of(Domain::Host));
    assert(part_of(ledger.balances, keys_of(Domain::Host).complement()) =~= part_of(
        ledger.balances,
        keys_of(Domain::Vm),
    ));
}

/// The ledger: every balance of both domains, the supply of each domain, the
/// transfers that wait for their callback, and the fee collector.
pub struct Ledger {
    entries: Vec<Entry>,
    host_supply: u128,
    vm_supply: u128,
    pending: Vec<PendingTransfer>,
    fee_collector: Account,
}

impl View for Ledger {
    type V = LedgerView;

    closed spec fn view(&self) -> LedgerView {
        LedgerView {
            balances: map_of(pairs_of(self.entries@)),
            total: (self.host_supply + self.vm_supply) as nat,
            pending: movements_of(self.pending@),
            fee_collector: self.fee_collector@,
        }
    }
}

impl Ledger {
    /// What the representation must satisfy beyond conservation: no account
    /// has two rows, and each counter is the supply of its domain.
    pub closed spec fn rows_agree(&self) -> bool {
        &&& distinct_keys(pairs_of(self.entries@))
        &&& self.host_supply == self@.supply_in(Domain::Host)
        &&& self.vm_supply == self@.supply_in(Domain::Vm)
    }

    /// The ledger is well formed: its balances add up to its total supply,
    /// which fits in 128 bits.
    pub open spec fn wf(&self) -> bool {
        &&& self.rows_agree()
        &&& self@.conserved()
        &&& self@.total <= u128::MAX
    }

    /// A ledger without balances, whose fees go to `fee_collector`.
    pub fn new(fee_collector: Account) -> (r: Self)
        ensures
            r.wf(),
            r@ == LedgerView::empty(fee_collector@),
    {
        let r = Ledger {
            entries: Vec::new(),
            host_supply: 0,
            vm_supply: 0,
            pending: Vec::new(),
            fee_collector,
        };
        proof {
            assert(pairs_of(r.entries@) =~= Seq::empty());
            assert(r@.pending =~= Seq::empty());
            let empty = Map::<AccountKey, nat>::empty();
            assert(part_of(empty, keys_of(Domain::Host)) =~= empty);
            assert(part_of(empty, keys_of(Domain::Vm)) =~= empty);
        }
        r
    }

    /// The account that collects fees.
    pub fn fee_collector(&self) -> (r: &Account)
        ensures
            r@ == self@.fee_collector,
    {
        &self.fee_collector
    }

    /// The total supply of the bridged asset.
    pub fn total_supply(&self) -> (r: u128)
        requires
            self.wf(),
        ensures
            r == self@.total,
            r == self@.supply_in(Domain::Host) + self@.supply_in(Domain::Vm),
    {
        self.host_supply + self.vm_supply
    }

    /// The sum of all balances of one domain.
    pub fn supply_of(&self, domain: Domain) -> (r: u128)
        requires
            self.wf(),
        ensures
            r == self@.supply_in(domain),
    {
        match domain {
            Domain::Host => self.host_supply,
            Domain::Vm => self.vm_supply,
        }
    }

    /// The row that holds `account`, if there is one.
    fn find(&self, account: &Account) -> (r: Option<usize>)
        ensures
            match r {
                Some(row) => row < self.entries.len() && self.entries[row as int].account@
                    == account@,
                None => forall|i: int|
                    0 <= i < self.entries.len() ==> self.entries[i].account@ != account@,
            },
    {
        let mut row: usize = 0;
        while row < self.entries.len()
            invariant
                row <= self.entries.len(),
                forall|i: int| 0 <= i < row ==> self.entries[i].account@ != account@,
            decreases self.entries.len() - row,
        {
            if self.entries[row].account == *account {
                return Some(row);
            }
            row += 1;
        }
        None
    }

    /// The balance of `account`; zero for an account never seen.
    pub fn balance_of(&self, account: &Account) -> (r: u128)
        requires
            self.wf(),
        ensures
            r == self@.balance(account@),
    {
        let found = self.find(account);
        proof {
            let pairs = pairs_of(self.entries@);
            lemma_map_of_domain(pairs);
            match found {
                Some(row) => {
                    lemma_map_of_row(pairs, row as int);
                },
                None => {
                    lemma_map_of_absent(pairs, account@);
                },
            }
        }
        match found {
            Some(row) => self.entries[row].balance,
            None => 0,
        }
    }

    /// Adds `amount` to the balance of `account` and to the supply.
    fn add_to(&mut self, account: &Account, amount: u128)
        requires
            old(self).wf(),
            old(self)@.total + amount <= u128::MAX,
        ensures
            final(self).wf(),
            final(self)@ == old(self)@.credit(account@, amount as nat),
    {
        let ghost before = self@;
        let ghost pairs = pairs_of(self.entries@);
        let found = self.find(account);
        proof {
            lemma_map_of_domain(pairs);
            lemma_balance_le_total(before, account@);
            lemma_credit(before, account@, amount as nat);
        }
        match found {
            Some(row) => {
                proof {
                    lemma_map_of_row(pairs, row as int);
                    lemma_map_of_update(pairs, row as int, (self.entries[row as int].balance
                        + amount) as nat);
                }
                let held = self.entries[row].balance;
                let entry = Entry { account: account.clone(), balance: held + amount };
                self.entries.set(row, entry);
                assert(pairs_of(self.entries@) =~= pairs.update(
                    row as int,
                    (account@, (held + amount) as nat),
                ));
            },
            None => {
                proof {
                    lemma_map_of_absent(pairs, account@);
                    lemma_map_of_push(pairs, account@, amount as nat);
                }
                let entry = Entry { account: account.clone(), balance: amount };
                self.entries.push(entry);
                assert(pairs_of(self.entries@) =~= pairs.push((account@, amount as nat)));
            },
        }
        match account.domain() {
            Domain::Host => {
                self.host_supply = self.host_supply + amount;
            },
            Domain::Vm => {
                self.vm_supply = self.vm_supply + amount;
            },
        }
        assert(self@.balances =~= before.credit(account@, amount as nat).balances);
    }

    /// Takes `amount` from the balance of `account` and from the supply.
    fn take_from(&mut self, account: &Account, amount: u128)
        requires
            old(self).wf(),
            amount <= old(self)@.balance(account@),
        ensures
            final(self).wf(),
            final(self)@ == old(self)@.debit(account@, amount as nat),
    {
        let ghost before = self@;
        let ghost pairs = pairs_of(self.entries@);
        let found = self.find(account);
        proof {
            lemma_map_of_domain(pairs);
            lemma_balance_le_total(before, account@);
            lemma_debit(before, account@, amount as nat);
        }
        match found {
            Some(row) => {
                proof {
                    lemma_map_of_row(pairs, row as int);
                    lemma_map_of_update(pairs, row as int, (self.entries[row as int].balance
                        - amount) as nat);
                }
                let held = self.entries[row].balance;
                let entry = Entry { account: account.clone(), balance: held - amount };
                self.entries.set(row, entry);
                assert(pairs_of(self.entries@) =~= pairs.update(
                    row as int,
                    (account@, (held - amount) as nat),
                ));
            },
            None => {
                proof {
                    lemma_map_of_absent(pairs, account@);
                    lemma_map_of_push(pairs, account@, 0);
                }
                let entry = Entry { account: account.clone(), balance: 0 };
                self.entries.push(entry);
                assert(pairs_of(self.entries@) =~= pairs.push((account@, 0nat)));
            },
        }
        match account.domain() {
            Domain::Host => {
                self.host_supply = self.host_supply - amount;
            },
            Domain::Vm => {
                self.vm_supply = self.vm_supply - amount;
            },
        }
        assert(self@.balances =~= before.debit(account@, amount as nat).balances);
    }

    /// Mints `amount` to `account`.
    ///
    /// Refused, with nothing changed, exactly when the total supply would
    /// exceed 128 bits.
    pub fn credit(&mut self, account: &Account, amount: u128) -> (r: Result<(), AccountingError>)
        requires
            old(self).wf(),
        ensures
            final(self).wf(),
            r is Ok <==> old(self)@.total + amount <= u128::MAX,
            r is Ok ==> final(self)@ == old(self)@.credit(account@, amount as nat),
            r is Err ==> r == Err::<(), AccountingError>(AccountingError::SupplyOverflow)
                && final(self)@ == old(self)@,
    {
        if amount > u128::MAX - self.total_supply() {
            return Err(AccountingError::SupplyOverflow);
        }
        self.add_to(account, amount);
        Ok(())
    }

    /// Burns `amount` from `account`.
    ///
    /// Refused, with nothing changed, exactly when the account holds less
    /// than `amount`: no balance ever goes below zero.
    pub fn debit(&mut self, account: &Account, amount: u128) -> (r: Result<
        (),
        InsufficientBalance,
    >)
        requires
            old(self).wf(),
        ensures
            final(self).wf(),
            r is Ok <==> amount <= old(self)@.balance(account@),
            r is Ok ==> final(self)@ == old(self)@.debit(account@, amount as nat),
            r is Err ==> r == Err::<(), InsufficientBalance>(InsufficientBalance) && final(self)@
                == old(self)@,
    {
        if amount > self.balance_of(account) {
            return Err(InsufficientBalance);
        }
        self.take_from(account, amount);
        Ok(())
    }

    /// Mints `amount`, of which `fee` goes to the fee collector and the rest
    /// to `to`: what a deposit does to the ledger.
    ///
    /// Refused, with nothing changed, when the fee exceeds the amount or the
    /// total supply would exceed 128 bits.
    pub fn mint(&mut self, to: &Account, amount: u128, fee: u128) -> (r: Result<
        (),
        AccountingError,
    >)
        requires
            old(self).wf(),
        ensures
            final(self).wf(),
            r is Ok <==> old(self)@.can_mint(amount as nat, fee as nat),
            r is Ok ==> final(self)@ == old(self)@.mint(to@, amount as nat, fee as nat),
            r is Err ==> final(self)@ == old(self)@,
            r is Err ==> r == Err::<(), AccountingError>(
                if fee > amount {
                    AccountingError::FeeExceedsAmount
                } else {
                    AccountingError::SupplyOverflow
                },
            ),
    {
        if fee > amount {
            return Err(AccountingError::FeeExceedsAmount);
        }
        if amount > u128::MAX - self.total_supply() {
            return Err(AccountingError::SupplyOverflow);
        }
        self.add_to(to, amount - fee);
        let collector = self.fee_collector.clone();
        self.add_to(&collector, fee);
        Ok(())
    }

    /// Moves funds whose movement was found possible.
    fn move_funds(&mut self, from: &Account, to: &Account, amount: u128, fee: u128)
        requires
            old(self).wf(),
            old(self)@.can_transfer(from@, amount as nat, fee as nat),
        ensures
            final(self).wf(),
            final(self)@ == old(self)@.transfer(from@, to@, amount as nat, fee as nat),
    {
        proof {
            lemma_balance_le_total(self@, from@);
        }
        self.take_from(from, amount);
        self.add_to(to, amount - fee);
        let collector = self.fee_collector.clone();
        self.add_to(&collector, fee);
    }

    /// Moves `amount` from `from` to `to`, of which `fee` goes to the fee
    /// collector. The total supply stays as it is.
    ///
    /// Refused, with nothing changed, when the fee exceeds the amount or the
    /// source holds less than the amount.
    pub fn transfer(&mut self, from: &Account, to: &Account, amount: u128, fee: u128) -> (r:
        Result<(), AccountingError>)
        requires
            old(self).wf(),
        ensures
            final(self).wf(),
            r is Ok <==> old(self)@.can_transfer(from@, amount as nat, fee as nat),
            r is Ok ==> final(self)@ == old(self)@.transfer(
                from@,
                to@,
                amount as nat,
                fee as nat,
            ),
            r is Err ==> final(self)@ == old(self)@,
            r is Err ==> r == Err::<(), AccountingError>(
                if fee > amount {
                    AccountingError::FeeExceedsAmount
                } else {
                    AccountingError::InsufficientBalance
                },
            ),
    {
        if fee > amount {
            return Err(AccountingError::FeeExceedsAmount);
        }
        if amount > self.balance_of(from) {
            return Err(AccountingError::InsufficientBalance);
        }
        self.move_funds(from, to, amount, fee);
        Ok(())
    }

    /// The first phase of a transfer with a callback: moves the funds as
    /// [`Ledger::transfer`] does and records the transfer as waiting. The
    /// record returned is what [`Ledger::resolve_transfer`] takes once the
    /// callback has reported.
    pub fn transfer_call(&mut self, from: &Account, to: &Account, amount: u128, fee: u128) -> (r:
        Result<PendingTransfer, AccountingError>)
        requires
            old(self).wf(),
        ensures
            final(self).wf(),
            r is Ok <==> old(self)@.can_transfer(from@, amount as nat, fee as nat),
            match r {
                Ok(record) => {
                    &&& record@ == Movement {
                        from: from@,
                        to: to@,
                        amount: amount as nat,
                        fee: fee as nat,
                    }
                    &&& final(self)@ == old(self)@.transfer(
                        from@,
                        to@,
                        amount as nat,
                        fee as nat,
                    ).await_callback(record@)
                },
                Err(e) => {
                    &&& final(self)@ == old(self)@
                    &&& e == if fee > amount {
                        AccountingError::FeeExceedsAmount
                    } else {
                        AccountingError::InsufficientBalance
                    }
                },
            },
    {
        if fee > amount {
            return Err(AccountingError::FeeExceedsAmount);
        }
        if amount > self.balance_of(from) {
            return Err(AccountingError::InsufficientBalance);
        }
        self.move_funds(from, to, amount, fee);
        let ghost moved = self@;
        let record = PendingTransfer { from: from.clone(), to: to.clone(), amount, fee };
        self.pending.push(record.clone());
        assert(self@.pending =~= moved.pending.push(record@));
        Ok(record)
    }

    /// The position of the oldest waiting transfer equal to `transfer`.
    fn find_pending(&self, transfer: &PendingTransfer) -> (r: Option<usize>)
        ensures
            match r {
                Some(index) => index < self.pending.len() && self@.oldest_pending(transfer@)
                    == Some(index as int),
                None => self@.oldest_pending(transfer@) == None::<int>,
            },
    {
        let ghost waiting = self@.pending;
        let mut index: usize = 0;
        while index < self.pending.len()
            invariant
                index <= self.pending.len(),
                waiting == self@.pending,
                waiting.len() == self.pending.len(),
                forall|j: int| 0 <= j < index ==> waiting[j] != transfer@,
            decreases self.pending.len() - index,
        {
            assert(waiting[index as int] == self.pending[index as int]@);
            if self.pending[index] == *transfer {
                proof {
                    let found = index as int;
                    let chosen = choose|i: int|
                        0 <= i < waiting.len() && waiting[i] == transfer@ && forall|j: int|
                            0 <= j < i ==> waiting[j] != transfer@;
                    assert(0 <= found < waiting.len() && waiting[found] == transfer@
                        && forall|j: int| 0 <= j < found ==> waiting[j] != transfer@);
                    assert(chosen == found) by {
                        if chosen < found {
                            assert(waiting[chosen] != transfer@);
                        }
                        if found < chosen {
                            assert(waiting[found] != transfer@);
                        }
                    }
                }
                return Some(index);
            }
            index += 1;
        }
        None
    }

    /// Whether a transfer can be undone: the fee collector and the receiver
    /// still hold what it gave them.
    fn can_roll_back(&self, transfer: &PendingTransfer) -> (r: bool)
        requires
            self.wf(),
        ensures
            r == self@.can_roll_back(transfer@),
    {
        if transfer.fee > transfer.amount {
            return false;
        }
        let collected = self.balance_of(&self.fee_collector);
        if transfer.fee > collected {
            return false;
        }
        let received = if transfer.to == self.fee_collector {
            collected - transfer.fee
        } else {
            self.balance_of(&transfer.to)
        };
        proof {
            lemma_debit(self@, self@.fee_collector, transfer.fee as nat);
        }
        transfer.amount - transfer.fee <= received
    }

    /// Undoes a transfer that was found possible to undo.
    fn roll_back(&mut self, transfer: &PendingTransfer)
        requires
            old(self).wf(),
            old(self)@.can_roll_back(transfer@),
        ensures
            final(self).wf(),
            final(self)@ == old(self)@.roll_back(transfer@),
    {
        proof {
            let without_fee = self@.debit(self@.fee_collector, transfer.fee as nat);
            lemma_debit(self@, self@.fee_collector, transfer.fee as nat);
            lemma_debit(without_fee, transfer.to@, (transfer.amount - transfer.fee) as nat);
        }
        let collector = self.fee_collector.clone();
        self.take_from(&collector, transfer.fee);
        self.take_from(&transfer.to, transfer.amount - transfer.fee);
        self.add_to(&transfer.from, transfer.amount);
    }

    /// Strikes the waiting transfer at `index` off the list.
    fn settle(&mut self, index: usize)
        requires
            old(self).wf(),
            index < old(self)@.pending.len(),
        ensures
            final(self).wf(),
            final(self)@ == old(self)@.settle(index as int),
    {
        self.pending.remove(index);
        assert(self@.pending =~= old(self)@.pending.remove(index as int));
    }

    /// The second phase of a transfer with a callback.
    ///
    /// `transfer` must be waiting, else the call is refused with
    /// `UnknownTransfer`. A confirmed transfer stops waiting. A failed one
    /// is rolled back in full and stops waiting; where the fee collector or
    /// the receiver no longer holds the funds, the call is refused with
    /// `InsufficientBalance` and the transfer keeps waiting.
    pub fn resolve_transfer(&mut self, transfer: &PendingTransfer, outcome: CallbackOutcome) -> (r:
        Result<(), AccountingError>)
        requires
            old(self).wf(),
        ensures
            final(self).wf(),
            (final(self)@, r) == old(self)@.resolve(transfer@, outcome),
    {
        let index = match self.find_pending(transfer) {
            Some(index) => index,
            None => {
                return Err(AccountingError::UnknownTransfer);
            },
        };
        match outcome {
            CallbackOutcome::Confirmed => {},
            CallbackOutcome::Failed => {
                if !self.can_roll_back(transfer) {
                    return Err(AccountingError::InsufficientBalance);
                }
                self.roll_back(transfer);
            },
        }
        self.settle(index);
        Ok(())
    }

    /// Whether the ledger has a balance for `account`, be it zero.
    pub fn has_account(&self, account: &Account) -> (r: bool)
        ensures
            r == self@.balances.dom().contains(account@),
    {
        let found = self.find(account);
        proof {
            let pairs = pairs_of(self.entries@);
            lemma_map_of_domain(pairs);
            match found {
                Some(row) => {
                    assert(pairs[row as int].0 == account@);
                },
                None => {
                    lemma_map_of_absent(pairs, account@);
                },
            }
        }
        found.is_some()
    }

    /// All balances of the ledger as rows of account and amount, for
    /// storage outside it. No account has two rows, and the rows sum to the
    /// total supply: [`Ledger::restore`] accepts them.
    pub fn accounts(&self) -> (r: Vec<(Account, u128)>)
        requires
            self.wf(),
        ensures
            distinct_keys(stored_pairs(r@)),
            map_of(stored_pairs(r@)) == self@.balances,
            stored_sum(r@) == self@.total,
    {
        let mut rows: Vec<(Account, u128)> = Vec::new();
        let mut row: usize = 0;
        while row < self.entries.len()
            invariant
                row <= self.entries.len(),
                rows.len() == row,
                stored_pairs(rows@) =~= pairs_of(self.entries@).take(row as int),
            decreases self.entries.len() - row,
        {
            let ghost before = stored_pairs(rows@);
            rows.push((self.entries[row].account.clone(), self.entries[row].balance));
            assert(stored_pairs(rows@) =~= before.push(pairs_of(self.entries@)[row as int]));
            row += 1;
        }
        proof {
            assert(pairs_of(self.entries@).take(row as int) =~= pairs_of(self.entries@));
            lemma_stored_sum_is_map_sum(rows@);
            lemma_supplies_are_all(self@);
        }
        rows
    }

    /// Rebuilds a ledger from stored balances, the total supply that was
    /// stored with them, and the transfers that were waiting.
    ///
    /// This is the conservation check: the rows are accepted exactly when no
    /// account has two rows and the amounts sum to `total_supply`. Anything
    /// else is an `InvariantViolation`, and no ledger is made.
    pub fn restore(
        rows: Vec<(Account, u128)>,
        total_supply: u128,
        waiting: Vec<PendingTransfer>,
        fee_collector: Account,
    ) -> (r: Result<Ledger, AccountingError>)
        ensures
            r is Ok <==> distinct_keys(stored_pairs(rows@)) && stored_sum(rows@) == total_supply,
            match r {
                Ok(ledger) => {
                    &&& ledger.wf()
                    &&& ledger@.balances == map_of(stored_pairs(rows@))
                    &&& ledger@.total == total_supply
                    &&& ledger@.pending == movements_of(waiting@)
                    &&& ledger@.fee_collector == fee_collector@
                },
                Err(e) => e == AccountingError::InvariantViolation,
            },
    {
        let mut ledger = Ledger::new(fee_collector);
        let ghost pairs = stored_pairs(rows@);
        let mut row: usize = 0;
        while row < rows.len()
            invariant
                row <= rows.len(),
                pairs == stored_pairs(rows@),
                ledger.wf(),
                ledger@.balances == map_of(pairs.take(row as int)),
                ledger@.total == stored_sum(rows@.take(row as int)),
                ledger@.pending == Seq::<Movement>::empty(),
                ledger@.fee_collector == fee_collector@,
                distinct_keys(pairs.take(row as int)),
            decreases rows.len() - row,
        {
            let ghost seen = pairs.take(row as int);
            let ghost next = pairs.take(row + 1);
            proof {
                assert(next =~= seen.push(pairs[row as int]));
                assert(rows@.take(row + 1).drop_last() =~= rows@.take(row as int));
                lemma_stored_sum_grows(rows@, row + 1);
                lemma_map_of_domain(seen);
            }
            if ledger.has_account(&rows[row].0) {
                proof {
                    let twin = choose|i: int|
                        0 <= i < seen.len() && #[trigger] seen[i].0 == rows[row as int].0@;
                    assert(pairs[twin].0 == pairs[row as int].0);
                }
                return Err(AccountingError::InvariantViolation);
            }
            if ledger.credit(&rows[row].0, rows[row].1).is_err() {
                return Err(AccountingError::InvariantViolation);
            }
            proof {
                lemma_map_of_push(seen, pairs[row as int].0, pairs[row as int].1);
            }
            row += 1;
        }
        proof {
            assert(pairs.take(row as int) =~= pairs);
            assert(rows@.take(row as int) =~= rows@);
        }
        if ledger.total_supply() != total_supply {
            return Err(AccountingError::InvariantViolation);
        }
        ledger.pending = waiting;
        Ok(ledger)
    }

    /// The transfers that wait for their callback, oldest first, for
    /// storage outside the ledger.
    pub fn waiting_transfers(&self) -> (r: Vec<PendingTransfer>)
        ensures
            movements_of(r@) == self@.pending,
    {
        let mut waiting: Vec<PendingTransfer> = Vec::new();
        let mut index: usize = 0;
        while index < self.pending.len()
            invariant
                index <= self.pending.len(),
                waiting.len() == index,
                forall|i: int| 0 <= i < index ==> waiting[i]@ == self.pending[i]@,
            decreases self.pending.len() - index,
        {
            waiting.push(self.pending[index].clone());
            index += 1;
        }
        assert(movements_of(waiting@) =~= self@.pending);
        waiting
    }
}

} // verus!
