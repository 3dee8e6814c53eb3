//! A pluggable transaction-execution engine and the accounting of a bridged
//! asset across a host ledger and an embedded virtual machine.
//!
//! The crate has two halves.
//!
//! The engine half is the contract between callers and the backends of the
//! virtual machine: [`TransactionInfo`] and [`BlockInfo`] go in,
//! [`TransactResult`] comes out, [`EVMHandler`] is what every backend
//! implements, and [`EngineEVM`] is the facade that callers hold. The
//! classification of exits that all backends share is in [`outcome`].
//!
//! The accounting half is the [`connector::Connector`]: a
//! [`ledger::Ledger`] of balances in two domains behind a
//! [`gate::ProofGate`] that admits each proof once. What these do is
//! specified on mathematical models in [`model`] and [`connector`], and the
//! laws that hold of every sequence of operations are proved there:
//! conservation of the total supply, admission exactly once, and the exact
//! split of a transfer into amount and fee.
//!
//! Two things are taken on trust from `aurora_engine_types` and marked as
//! such where they stand: which strings are account identifiers
//! ([`account_id`]), and which recipient a routing message names
//! ([`routing`]).

pub mod account;
pub mod account_id;
pub mod balances;
pub mod connector;
pub mod context;
pub mod gate;
pub mod handler;
pub mod ledger;
pub mod model;
pub mod outcome;
pub mod primitives;
pub mod routing;
pub mod state;
pub mod table;

pub use crate::context::{BlockInfo, TransactionInfo};
pub use crate::handler::{init_evm, EVMHandler, EngineEVM};
pub use crate::outcome::{
    Log, TransactErrorKind, TransactExecutionResult, TransactResult, TransactionStatus,
};
pub use crate::state::{apply, ApplyModify};
