//! The connector: the ledger behind the proof admission gate, with the
//! deposit and withdraw paths between the remote chain and the two domains.

use crate::account::{Account, AccountKey, Domain};
use crate::account_id::AccountId;
use crate::gate::{
    admitted, proof_id_of, AdmittedEvent, DepositedEvent, ProofError, ProofGate, ProofId,
    ProofVerdict,
};
use crate::ledger::{Ledger, PendingTransfer};
use crate::model::{
    law_mint_raises_supply, law_transfer_fee_conservation, lemma_debit, lemma_roll_back,
    AccountingError, CallbackOutcome, LedgerView, Movement,
};
use crate::primitives::H160;
use crate::routing::{on_transfer_recipient, parse_on_transfer_message, route_view, MessageError};
use vstd::prelude::*;

verus! {

/// The attestation that a withdrawal produces: what a relayer needs to
/// unlock the funds on the remote chain.
#[derive(Clone, Copy, Debug, PartialEq, Eq)]
pub struct WithdrawResult {
    /// The amount that was burned.
    pub amount: u128,
    /// The address on the remote chain that is to receive the funds.
    pub recipient_id: H160,
    /// The address on the remote chain that holds the locked funds.
    pub eth_custodian_address: H160,
}

/// Why a deposit was refused. A refused deposit changes nothing: its proof
/// is not consumed.
#[derive(Clone, Copy, Debug, PartialEq, Eq, Structural)]
pub enum DepositError {
    /// The proof was not admitted.
    Proof(ProofError),
    /// The proof is good and new, but its event cannot be credited.
    Accounting(AccountingError),
}

/// Why a transfer with a routing message was refused. Nothing has changed.
#[derive(Clone, Copy, Debug, PartialEq, Eq, Structural)]
pub enum RoutedTransferError {
    /// The message names no recipient.
    Message(MessageError),
    /// The message is good, but the funds cannot be moved.
    Accounting(AccountingError),
}

/// The movement that a routed transfer makes: from the sender on the host
/// ledger to the recipient in the embedded virtual machine, without a fee.
pub open spec fn routed_movement(sender: Seq<char>, amount: u128, recipient: Seq<u8>) -> Movement {
    Movement {
        from: AccountKey::Host(sender),
        to: AccountKey::Vm(recipient),
        amount: amount as nat,
        fee: 0,
    }
}

/// The state of the connector.
pub struct ConnectorView {
    pub ledger: LedgerView,
    /// The identifiers of all proofs admitted so far.
    pub consumed: Set<ProofId>,
    /// The custodian on the remote chain.
    pub custodian: H160,
}

impl ConnectorView {
    /// A deposit: the proof is admitted, and the event's amount is
    /// minted to its recipient, less the fee, which the fee collector gets.
    /// The checks come in this order: the verifier's verdict, the replay
    /// check, the fee, the supply.
    pub open spec fn deposit(self, verdict: ProofVerdict) -> (
        ConnectorView,
        Result<AdmittedEvent, DepositError>,
    ) {
        match verdict {
            ProofVerdict::Invalid => (self, Err(DepositError::Proof(ProofError::InvalidProof))),
            ProofVerdict::Valid(event) => if self.consumed.contains(proof_id_of(event)) {
                (self, Err(DepositError::Proof(ProofError::AlreadyUsed)))
            } else if event.fee > event.amount {
                (self, Err(DepositError::Accounting(AccountingError::FeeExceedsAmount)))
            } else if self.ledger.total + event.amount > u128::MAX {
                (self, Err(DepositError::Accounting(AccountingError::SupplyOverflow)))
            } else {
                (
                    ConnectorView {
                        ledger: self.ledger.mint(
                            event.recipient@,
                            event.amount as nat,
                            event.fee as nat,
                        ),
                        consumed: self.consumed.insert(proof_id_of(event)),
                        ..self
                    },
                    Ok(admitted(event)),
                )
            },
        }
    }

    /// A withdrawal: `amount` is burned from `account`, and the attestation
    /// names the amount, the recipient and the configured custodian.
    pub open spec fn withdraw(self, account: AccountKey, recipient: H160, amount: u128) -> (
        ConnectorView,
        Result<WithdrawResult, AccountingError>,
    ) {
        if amount <= self.ledger.balance(account) {
            (
                ConnectorView { ledger: self.ledger.debit(account, amount as nat), ..self },
                Ok(
                    WithdrawResult {
                        amount,
                        recipient_id: recipient,
                        eth_custodian_address: self.custodian,
                    },
                ),
            )
        } else {
            (self, Err(AccountingError::InsufficientBalance))
        }
    }

    /// A transfer: applied where it is possible, else nothing changes.
    pub open spec fn transfer(self, movement: Movement) -> ConnectorView {
        if self.ledger.can_transfer(movement.from, movement.amount, movement.fee) {
            ConnectorView {
                ledger: self.ledger.transfer(
                    movement.from,
                    movement.to,
                    movement.amount,
                    movement.fee,
                ),
                ..self
            }
        } else {
            self
        }
    }

    /// The first phase of a transfer with a callback: a transfer that is
    /// also recorded as waiting.
    pub open spec fn transfer_call(self, movement: Movement) -> ConnectorView {
        if self.ledger.can_transfer(movement.from, movement.amount, movement.fee) {
            ConnectorView {
                ledger: self.ledger.transfer(
                    movement.from,
                    movement.to,
                    movement.amount,
                    movement.fee,
                ).await_callback(movement),
                ..self
            }
        } else {
            self
        }
    }

    /// The first phase of a transfer whose routing message was parsed to
    /// `route`: a transfer with a callback to the recipient that the message
    /// names, or nothing where it names none.
    pub open spec fn transfer_call_routed(
        self,
        sender: Seq<char>,
        amount: u128,
        route: Result<Seq<u8>, MessageError>,
    ) -> (ConnectorView, Result<Movement, RoutedTransferError>) {
        match route {
            Err(e) => (self, Err(RoutedTransferError::Message(e))),
            Ok(recipient) => if amount <= self.ledger.balance(AccountKey::Host(sender)) {
                (
                    self.transfer_call(routed_movement(sender, amount, recipient)),
                    Ok(routed_movement(sender, amount, recipient)),
                )
            } else {
                (self, Err(RoutedTransferError::Accounting(AccountingError::InsufficientBalance)))
            },
        }
    }

    /// The second phase of a transfer with a callback.
    pub open spec fn resolve_transfer(self, movement: Movement, outcome: CallbackOutcome)
        -> ConnectorView {
        ConnectorView { ledger: self.ledger.resolve(movement, outcome).0, ..self }
    }
}

/// The connector: the ledger, the set of admitted proofs, and the
/// custodian's address.
///
/// Both parts keep their own invariants, so the fields are
/// open to the embedding code; the methods below are the deposit and
/// withdraw paths and the transfers, with both parts kept in step.
pub struct Connector {
    pub ledger: Ledger,
    pub gate: ProofGate,
    pub custodian: H160,
}

impl View for Connector {
    type V = ConnectorView;

    open spec fn view(&self) -> ConnectorView {
        ConnectorView { ledger: self.ledger@, consumed: self.gate@, custodian: self.custodian }
    }
}

impl Connector {
    /// The connector is well formed when its ledger is.
    pub open spec fn wf(&self) -> bool {
        self.ledger.wf()
    }

    /// A connector without balances or admitted proofs.
    pub fn new(fee_collector: Account, custodian: H160) -> (r: Self)
        ensures
            r.wf(),
            r@ == (ConnectorView {
                ledger: LedgerView::empty(fee_collector@),
                consumed: Set::empty(),
                custodian,
            }),
    {
        Connector { ledger: Ledger::new(fee_collector), gate: ProofGate::new(), custodian }
    }

    /// The balance of `account`.
    pub fn balance_of(&self, account: &Account) -> (r: u128)
        requires
            self.wf(),
        ensures
            r == self@.ledger.balance(account@),
    {
        self.ledger.balance_of(account)
    }

    /// The total supply: the sum of all balances of both domains.
    pub fn total_supply(&self) -> (r: u128)
        requires
            self.wf(),
        ensures
            r == self@.ledger.total,
            r == self@.ledger.supply_in(Domain::Host) + self@.ledger.supply_in(Domain::Vm),
    {
        self.ledger.total_supply()
    }

    /// Whether the proof with this identifier was admitted.
    pub fn is_used_proof(&self, id: &ProofId) -> (r: bool)
        ensures
            r == self@.consumed.contains(*id),
    {
        self.gate.is_used(id)
    }

    /// Deposits what a proof of a lock event on the remote chain brings.
    ///
    /// Admission and minting go together: either the proof is consumed
    /// and the full amount is minted, or nothing changes at all.
    pub fn deposit(&mut self, verdict: ProofVerdict) -> (r: Result<AdmittedEvent, DepositError>)
        requires
            old(self).wf(),
        ensures
            final(self).wf(),
            (final(self)@, r) == old(self)@.deposit(verdict),
            final(self)@ == step(old(self)@, Operation::Deposit { verdict }),
    {
        let event = match verdict {
            ProofVerdict::Invalid => {
                return Err(DepositError::Proof(ProofError::InvalidProof));
            },
            ProofVerdict::Valid(event) => event,
        };
        let id = event.proof_id();
        if self.gate.is_used(&id) {
            return Err(DepositError::Proof(ProofError::AlreadyUsed));
        }
        if event.fee > event.amount {
            return Err(DepositError::Accounting(AccountingError::FeeExceedsAmount));
        }
        if event.amount > u128::MAX - self.ledger.total_supply() {
            return Err(DepositError::Accounting(AccountingError::SupplyOverflow));
        }
        match self.gate.admit_proof(ProofVerdict::Valid(event)) {
            Ok(event) => {
                let minted = self.ledger.mint(&event.recipient, event.amount, event.fee);
                assert(minted is Ok);
                Ok(event)
            },
            Err(e) => Err(DepositError::Proof(e)),
        }
    }

    /// Burns `amount` from `account` and attests it for `recipient` on the
    /// remote chain. The remote chain is not contacted.
    ///
    /// Refused with `InsufficientBalance`, and nothing changed, exactly when
    /// the account holds less than `amount`.
    pub fn withdraw(&mut self, account: &Account, recipient: H160, amount: u128) -> (r: Result<
        WithdrawResult,
        AccountingError,
    >)
        requires
            old(self).wf(),
        ensures
            final(self).wf(),
            (final(self)@, r) == old(self)@.withdraw(account@, recipient, amount),
            final(self)@ == step(
                old(self)@,
                Operation::Withdraw { account: account@, recipient, amount },
            ),
    {
        match self.ledger.debit(account, amount) {
            Ok(()) => Ok(
                WithdrawResult {
                    amount,
                    recipient_id: recipient,
                    eth_custodian_address: self.custodian,
                },
            ),
            Err(_) => Err(AccountingError::InsufficientBalance),
        }
    }

    /// Moves `amount` from `from` to `to`, of which `fee` goes to the fee
    /// collector: see [`Ledger::transfer`].
    pub fn transfer(&mut self, from: &Account, to: &Account, amount: u128, fee: u128) -> (r:
        Result<(), AccountingError>)
        requires
            old(self).wf(),
        ensures
            final(self).wf(),
            r is Ok <==> old(self)@.ledger.can_transfer(from@, amount as nat, fee as nat),
            final(self)@ == old(self)@.transfer(
                Movement { from: from@, to: to@, amount: amount as nat, fee: fee as nat },
            ),
            r is Err ==> r == Err::<(), AccountingError>(
                if fee > amount {
                    AccountingError::FeeExceedsAmount
                } else {
                    AccountingError::InsufficientBalance
                },
            ),
    {
        self.ledger.transfer(from, to, amount, fee)
    }

    /// The first phase of a transfer with a callback: see
    /// [`Ledger::transfer_call`].
    pub fn transfer_call(&mut self, from: &Account, to: &Account, amount: u128, fee: u128) -> (r:
        Result<PendingTransfer, AccountingError>)
        requires
            old(self).wf(),
        ensures
            final(self).wf(),
            r is Ok <==> old(self)@.ledger.can_transfer(from@, amount as nat, fee as nat),
            final(self)@ == old(self)@.transfer_call(
                Movement { from: from@, to: to@, amount: amount as nat, fee: fee as nat },
            ),
            match r {
                Ok(record) => record@ == Movement {
                    from: from@,
                    to: to@,
                    amount: amount as nat,
                    fee: fee as nat,
                },
                Err(e) => e == if fee > amount {
                    AccountingError::FeeExceedsAmount
                } else {
                    AccountingError::InsufficientBalance
                },
            },
    {
        self.ledger.transfer_call(from, to, amount, fee)
    }

    /// The first phase of a transfer with a callback whose routing message
    /// has been parsed: `route` is the recipient that the message names, or
    /// the reason why it names none.
    ///
    /// A message without a recipient refuses the transfer. Otherwise
    /// `amount` moves from `sender` on the host ledger to the recipient in
    /// the embedded virtual machine, and waits for its callback.
    pub fn transfer_call_routed(
        &mut self,
        sender: &AccountId,
        amount: u128,
        route: Result<H160, MessageError>,
    ) -> (r: Result<PendingTransfer, RoutedTransferError>)
        requires
            old(self).wf(),
        ensures
            final(self).wf(),
            final(self)@ == old(self)@.transfer_call_routed(sender@, amount, route_view(route)).0,
            match r {
                Ok(record) => old(self)@.transfer_call_routed(
                    sender@,
                    amount,
                    route_view(route),
                ).1 == Ok::<Movement, RoutedTransferError>(record@),
                Err(e) => old(self)@.transfer_call_routed(sender@, amount, route_view(route)).1
                    == Err::<Movement, RoutedTransferError>(e),
            },
    {
        let recipient = match route {
            Ok(recipient) => recipient,
            Err(e) => {
                return Err(RoutedTransferError::Message(e));
            },
        };
        let from = Account::Host(sender.clone());
        let to = Account::Vm(recipient);
        match self.ledger.transfer_call(&from, &to, amount, 0) {
            Ok(record) => Ok(record),
            Err(e) => Err(RoutedTransferError::Accounting(e)),
        }
    }

    /// A transfer with a callback, routed by its message: the message is
    /// parsed as the host ledger's format says, and the transfer goes to the
    /// recipient that it names. See [`Connector::transfer_call_routed`] for
    /// what happens for each outcome of the parsing.
    pub fn ft_transfer_call(&mut self, sender: &AccountId, amount: u128, message: &str) -> (r:
        Result<PendingTransfer, RoutedTransferError>)
        requires
            old(self).wf(),
        ensures
            final(self).wf(),
            final(self)@ == old(self)@.transfer_call_routed(
                sender@,
                amount,
                on_transfer_recipient(message@),
            ).0,
            match r {
                Ok(record) => old(self)@.transfer_call_routed(
                    sender@,
                    amount,
                    on_transfer_recipient(message@),
                ).1 == Ok::<Movement, RoutedTransferError>(record@),
                Err(e) => old(self)@.transfer_call_routed(
                    sender@,
                    amount,
                    on_transfer_recipient(message@),
                ).1 == Err::<Movement, RoutedTransferError>(e),
            },
    {
        let route = parse_on_transfer_message(message);
        self.transfer_call_routed(sender, amount, route)
    }

    /// Moves `amount` between two accounts of the host ledger, without a
    /// fee.
    pub fn ft_transfer(&mut self, sender: &AccountId, receiver: &AccountId, amount: u128) -> (r:
        Result<(), AccountingError>)
        requires
            old(self).wf(),
        ensures
            final(self).wf(),
            r is Ok <==> amount <= old(self)@.ledger.balance(AccountKey::Host(sender@)),
            final(self)@ == old(self)@.transfer(
                Movement {
                    from: AccountKey::Host(sender@),
                    to: AccountKey::Host(receiver@),
                    amount: amount as nat,
                    fee: 0,
                },
            ),
            r is Err ==> r == Err::<(), AccountingError>(AccountingError::InsufficientBalance),
    {
        let from = Account::Host(sender.clone());
        let to = Account::Host(receiver.clone());
        self.ledger.transfer(&from, &to, amount, 0)
    }

    /// The balance of an account of the host ledger.
    pub fn ft_balance_of(&self, account: &AccountId) -> (r: u128)
        requires
            self.wf(),
        ensures
            r == self@.ledger.balance(AccountKey::Host(account@)),
    {
        let account = Account::Host(account.clone());
        self.ledger.balance_of(&account)
    }

    /// The total supply of the bridged asset, over both domains.
    pub fn ft_total_supply(&self) -> (r: u128)
        requires
            self.wf(),
        ensures
            r == self@.ledger.total,
            r == self@.ledger.supply_in(Domain::Host) + self@.ledger.supply_in(Domain::Vm),
    {
        self.ledger.total_supply()
    }

    /// The second phase of a transfer with a callback: see
    /// [`Ledger::resolve_transfer`].
    pub fn resolve_transfer(&mut self, transfer: &PendingTransfer, outcome: CallbackOutcome) -> (r:
        Result<(), AccountingError>)
        requires
            old(self).wf(),
        ensures
            final(self).wf(),
            final(self)@ == old(self)@.resolve_transfer(transfer@, outcome),
            r == old(self)@.ledger.resolve(transfer@, outcome).1,
    {
        self.ledger.resolve_transfer(transfer, outcome)
    }
}

/// One operation on the connector, as the laws below speak of it. Each
/// method of [`Connector`] that changes the state is one of these: the
/// state after it is [`step`] of the state before.
pub enum Operation {
    Deposit { verdict: ProofVerdict },
    Withdraw { account: AccountKey, recipient: H160, amount: u128 },
    Transfer { movement: Movement },
    TransferCall { movement: Movement },
    RoutedTransferCall { sender: Seq<char>, amount: u128, route: Result<Seq<u8>, MessageError> },
    ResolveTransfer { movement: Movement, outcome: CallbackOutcome },
}

/// The state after one operation, whether it succeeded or was refused.
pub open spec fn step(state: ConnectorView, operation: Operation) -> ConnectorView {
    match operation {
        Operation::Deposit { verdict } => state.deposit(verdict).0,
        Operation::Withdraw { account, recipient, amount } => state.withdraw(
            account,
            recipient,
            amount,
        ).0,
        Operation::Transfer { movement } => state.transfer(movement),
        Operation::TransferCall { movement } => state.transfer_call(movement),
        Operation::RoutedTransferCall { sender, amount, route } => state.transfer_call_routed(
            sender,
            amount,
            route,
        ).0,
        Operation::ResolveTransfer { movement, outcome } => state.resolve_transfer(
            movement,
            outcome,
        ),
    }
}

/// The state after a sequence of operations, applied first to last.
pub open spec fn run(state: ConnectorView, operations: Seq<Operation>) -> ConnectorView
    decreases operations.len(),
{
    if operations.len() == 0 {
        state
    } else {
        step(run(state, operations.drop_last()), operations.last())
    }
}

/// What holds of the connector between any two operations: the ledger is
/// conserved, and its total supply fits in 128 bits.
pub open spec fn sound(state: ConnectorView) -> bool {
    state.ledger.conserved() && state.ledger.total <= u128::MAX
}

/// One operation keeps the connector sound.
pub proof fn law_step_conserves(state: ConnectorView, operation: Operation)
    requires
        sound(state),
    ensures
        sound(step(state, operation)),
{
    match operation {
        Operation::Deposit { verdict } => {
            if let ProofVerdict::Valid(event) = verdict {
                if event.fee <= event.amount {
                    law_mint_raises_supply(
                        state.ledger,
                        event.recipient@,
                        event.amount as nat,
                        event.fee as nat,
                    );
                }
            }
        },
        Operation::Withdraw { account, recipient, amount } => {
            if amount <= state.ledger.balance(account) {
                lemma_debit(state.ledger, account, amount as nat);
            }
        },
        Operation::Transfer { movement } => {
            if state.ledger.can_transfer(movement.from, movement.amount, movement.fee) {
                law_transfer_fee_conservation(
                    state.ledger,
                    movement.from,
                    movement.to,
                    movement.amount,
                    movement.fee,
                );
            }
        },
        Operation::TransferCall { movement } => {
            if state.ledger.can_transfer(movement.from, movement.amount, movement.fee) {
                law_transfer_fee_conservation(
                    state.ledger,
                    movement.from,
                    movement.to,
                    movement.amount,
                    movement.fee,
                );
            }
        },
        Operation::RoutedTransferCall { sender, amount, route } => {
            if let Ok(recipient) = route {
                let movement = routed_movement(sender, amount, recipient);
                if state.ledger.can_transfer(movement.from, movement.amount, movement.fee) {
                    law_transfer_fee_conservation(
                        state.ledger,
                        movement.from,
                        movement.to,
                        movement.amount,
                        movement.fee,
                    );
                }
            }
        },
        Operation::ResolveTransfer { movement, outcome } => {
            if state.ledger.can_roll_back(movement) {
                lemma_roll_back(state.ledger, movement);
            }
        },
    }
}

/// Conservation: after every sequence of deposits, withdrawals and
/// transfers, in whatever order and whether each succeeds or is refused,
/// the total supply is the sum of all host-ledger balances plus the sum of
/// all balances of the embedded virtual machine.
pub proof fn law_conservation(state: ConnectorView, operations: Seq<Operation>)
    requires
        sound(state),
    ensures
        sound(run(state, operations)),
        run(state, operations).ledger.total == run(state, operations).ledger.supply_in(Domain::Host)
            + run(state, operations).ledger.supply_in(Domain::Vm),
    decreases operations.len(),
{
    if operations.len() > 0 {
        law_conservation(state, operations.drop_last());
        law_step_conserves(run(state, operations.drop_last()), operations.last());
    }
}

/// The set of consumed proofs only grows, and the custodian stays the same,
/// whatever operations are applied.
pub proof fn law_consumed_never_shrinks(state: ConnectorView, operations: Seq<Operation>)
    ensures
        state.consumed.subset_of(run(state, operations).consumed),
        run(state, operations).custodian == state.custodian,
        run(state, operations).ledger.fee_collector == state.ledger.fee_collector,
    decreases operations.len(),
{
    if operations.len() > 0 {
        law_consumed_never_shrinks(state, operations.drop_last());
    }
}

/// A refusal changes nothing, so that trying again is safe: an operation
/// that is refused leaves the connector as it was, ledger and consumed
/// proofs alike.
pub proof fn law_refusal_changes_nothing(state: ConnectorView, operation: Operation)
    ensures
        match operation {
            Operation::Deposit { verdict } => state.deposit(verdict).1 is Err ==> step(
                state,
                operation,
            ) == state,
            Operation::Withdraw { account, recipient, amount } => state.withdraw(
                account,
                recipient,
                amount,
            ).1 is Err ==> step(state, operation) == state,
            Operation::Transfer { movement } => !state.ledger.can_transfer(
                movement.from,
                movement.amount,
                movement.fee,
            ) ==> step(state, operation) == state,
            Operation::TransferCall { movement } => !state.ledger.can_transfer(
                movement.from,
                movement.amount,
                movement.fee,
            ) ==> step(state, operation) == state,
            Operation::RoutedTransferCall { sender, amount, route } => state.transfer_call_routed(
                sender,
                amount,
                route,
            ).1 is Err ==> step(state, operation) == state,
            Operation::ResolveTransfer { movement, outcome } => state.ledger.resolve(
                movement,
                outcome,
            ).1 is Err ==> step(state, operation) == state,
        },
{
}

/// Replay protection: once a deposit has succeeded, any further deposit
/// whose proof has the same identifier is refused with `AlreadyUsed`, and
/// no balance, nor the total supply, nor anything else changes.
pub proof fn law_deposit_exactly_once(
    state: ConnectorView,
    first: DepositedEvent,
    second: DepositedEvent,
)
    requires
        proof_id_of(first) == proof_id_of(second),
        state.deposit(ProofVerdict::Valid(first)).1 is Ok,
    ensures
        state.deposit(ProofVerdict::Valid(first)).0.deposit(ProofVerdict::Valid(second)) == (
            state.deposit(ProofVerdict::Valid(first)).0,
            Err::<AdmittedEvent, DepositError>(DepositError::Proof(ProofError::AlreadyUsed)),
        ),
{
}

/// A proof is consumed only by a deposit that succeeds, and a deposit that
/// succeeds raises the total supply by the amount of its event.
pub proof fn law_deposit_mints(state: ConnectorView, event: DepositedEvent)
    requires
        sound(state),
    ensures
        state.deposit(ProofVerdict::Valid(event)).1 is Ok ==> {
            let after = state.deposit(ProofVerdict::Valid(event)).0;
            &&& after.consumed == state.consumed.insert(proof_id_of(event))
            &&& after.ledger.total == state.ledger.total + event.amount
            &&& forall|account: AccountKey|
                #[trigger] after.ledger.balance(account) == state.ledger.balance(account)
                    + crate::model::gain_of(
                    account,
                    event.recipient@,
                    state.ledger.fee_collector,
                    event.amount as nat,
                    event.fee as nat,
                )
        },
        state.deposit(ProofVerdict::Valid(event)).1 is Err ==> state.deposit(
            ProofVerdict::Valid(event),
        ).0 == state,
{
    if event.fee <= event.amount {
        law_mint_raises_supply(
            state.ledger,
            event.recipient@,
            event.amount as nat,
            event.fee as nat,
        );
    }
}

} // verus!
