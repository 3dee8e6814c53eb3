//! The handler contract that every backend implements, and the engine
//! facade through which callers reach the backend that was chosen.

use crate::context::{BlockInfo, TransactionInfo};
use crate::outcome::{TransactExecutionResult, TransactResult, TransactionStatus};
use vstd::prelude::*;

verus! {

/// The contract between the engine and a backend of the virtual machine.
///
/// A backend is made for one transaction in one block and executes it. The
/// `spec` functions are what a backend may state of itself: its context,
/// and how an execution relates the handler before, the handler after and
/// the result. Left as they are, they state nothing. The methods promise
/// that the context is not changed, and whatever the backend states of the
/// execution.
pub trait EVMHandler {
    /// The transaction that the handler was made for.
    open spec fn transaction(&self) -> TransactionInfo {
        arbitrary()
    }

    /// The block that the handler was made for.
    open spec fn block(&self) -> BlockInfo {
        arbitrary()
    }

    /// What the backend states of a contract creation: how the handler
    /// before, the handler after and the result relate.
    open spec fn created(&self, after: &Self, result: TransactExecutionResult<TransactResult>)
        -> bool {
        true
    }

    /// What the backend states of a call.
    open spec fn called(&self, after: &Self, result: TransactExecutionResult<TransactResult>)
        -> bool {
        true
    }

    /// What the backend states of a read-only call.
    open spec fn viewed(&self, after: &Self, result: TransactExecutionResult<TransactionStatus>)
        -> bool {
        true
    }

    /// Executes the transaction as the creation of a contract.
    fn transact_create(&mut self) -> (r: TransactExecutionResult<TransactResult>)
        requires
            old(self).transaction().fit_for_create(),
        ensures
            final(self).transaction() == old(self).transaction(),
            final(self).block() == old(self).block(),
            old(self).created(final(self), r),
    ;

    /// Executes the transaction as a call of a contract.
    fn transact_call(&mut self) -> (r: TransactExecutionResult<TransactResult>)
        requires
            old(self).transaction().fit_for_call(),
        ensures
            final(self).transaction() == old(self).transaction(),
            final(self).block() == old(self).block(),
            old(self).called(final(self), r),
    ;

    /// Executes the transaction as a read-only call.
    fn view(&mut self) -> (r: TransactExecutionResult<TransactionStatus>)
        requires
            old(self).transaction().fit_for_call(),
        ensures
            final(self).transaction() == old(self).transaction(),
            final(self).block() == old(self).block(),
            old(self).viewed(final(self), r),
    ;
}

/// The engine facade: it holds the one backend that was chosen when it was
/// made, and forwards to it.
pub struct EngineEVM<H: EVMHandler> {
    handler: H,
}

impl<H: EVMHandler> EngineEVM<H> {
    /// The backend behind the facade.
    pub closed spec fn handler(&self) -> H {
        self.handler
    }

    /// The facade over `handler`.
    pub fn new(handler: H) -> (r: Self)
        ensures
            r.handler() == handler,
    {
        Self { handler }
    }

    /// Gives the backend back.
    pub fn into_handler(self) -> (r: H)
        ensures
            r == self.handler(),
    {
        self.handler
    }
}

/// The facade adds nothing: what it states of an execution is what its
/// backend states, and its preconditions are those of its backend.
impl<H: EVMHandler> EVMHandler for EngineEVM<H> {
    open spec fn transaction(&self) -> TransactionInfo {
        self.handler().transaction()
    }

    open spec fn block(&self) -> BlockInfo {
        self.handler().block()
    }

    open spec fn created(&self, after: &Self, result: TransactExecutionResult<TransactResult>)
        -> bool {
        self.handler().created(&after.handler(), result)
    }

    open spec fn called(&self, after: &Self, result: TransactExecutionResult<TransactResult>)
        -> bool {
        self.handler().called(&after.handler(), result)
    }

    open spec fn viewed(&self, after: &Self, result: TransactExecutionResult<TransactionStatus>)
        -> bool {
        self.handler().viewed(&after.handler(), result)
    }

    fn transact_create(&mut self) -> (r: TransactExecutionResult<TransactResult>) {
        self.handler.transact_create()
    }

    fn transact_call(&mut self) -> (r: TransactExecutionResult<TransactResult>) {
        self.handler.transact_call()
    }

    fn view(&mut self) -> (r: TransactExecutionResult<TransactionStatus>) {
        self.handler.view()
    }
}

/// Initialises the engine over the backend that the caller has chosen and
/// built for its transaction and block. The choice is made here, once: the
/// engine has no way to change its backend.
pub fn init_evm<H: EVMHandler>(handler: H) -> (engine: EngineEVM<H>)
    ensures
        engine.handler() == handler,
        engine.transaction() == handler.transaction(),
        engine.block() == handler.block(),
{
    EngineEVM::new(handler)
}

} // verus!
