//! What an execution hands back: its status, the gas it used, and its logs.

use crate::primitives::{H160, H256};
use vstd::prelude::*;

verus! {

/// A log that an execution emitted.
#[derive(Debug, PartialEq, Eq)]
pub struct Log {
    /// The contract that emitted the log.
    pub address: H160,
    /// The topics of the log, in their order.
    pub topics: Vec<H256>,
    /// The payload of the log.
    pub data: Vec<u8>,
}

/// What a log says: the bytes of its address, of each topic in order, and
/// of its payload.
pub struct LogView {
    pub address: Seq<u8>,
    pub topics: Seq<Seq<u8>>,
    pub data: Seq<u8>,
}

impl View for Log {
    type V = LogView;

    open spec fn view(&self) -> LogView {
        LogView {
            address: self.address@,
            topics: self.topics@.map_values(|topic: H256| topic@),
            data: self.data@,
        }
    }
}

/// What a sequence of logs says, log by log, in their order.
pub open spec fn logs_view(logs: Seq<Log>) -> Seq<LogView> {
    logs.map_values(|log: Log| log@)
}

impl Clone for Log {
    fn clone(&self) -> (r: Self)
        ensures
            r@ == self@,
    {
        let mut topics: Vec<H256> = Vec::new();
        let mut i: usize = 0;
        while i < self.topics.len()
            invariant
                i <= self.topics.len(),
                topics@ == self.topics@.take(i as int),
            decreases self.topics.len() - i,
        {
            topics.push(self.topics[i]);
            assert(topics@ =~= self.topics@.take(i + 1));
            i += 1;
        }
        assert(topics@ =~= self.topics@);
        let mut data: Vec<u8> = Vec::new();
        let mut j: usize = 0;
        while j < self.data.len()
            invariant
                j <= self.data.len(),
                data@ == self.data@.take(j as int),
            decreases self.data.len() - j,
        {
            data.push(self.data[j]);
            assert(data@ =~= self.data@.take(j + 1));
            j += 1;
        }
        assert(data@ =~= self.data@);
        Log { address: self.address, topics, data }
    }
}

/// A copy of `logs`: the same logs in the same order.
pub fn copy_logs(logs: &Vec<Log>) -> (r: Vec<Log>)
    ensures
        logs_view(r@) == logs_view(logs@),
{
    let mut copy: Vec<Log> = Vec::new();
    let mut i: usize = 0;
    while i < logs.len()
        invariant
            i <= logs.len(),
            copy.len() == i,
            forall|k: int| 0 <= k < i ==> copy[k]@ == logs[k]@,
        decreases logs.len() - i,
    {
        copy.push(logs[i].clone());
        i += 1;
    }
    assert(logs_view(copy@) =~= logs_view(logs@));
    copy
}

/// How an execution that ran to an end ended.
#[derive(Clone, Debug, PartialEq, Eq)]
pub enum TransactionStatus {
    /// The execution succeeded and returned these bytes.
    Succeed(Vec<u8>),
    /// The contract reverted and returned these bytes; the state is as
    /// before.
    Revert(Vec<u8>),
    /// The execution ran out of gas.
    OutOfGas,
    /// The sender cannot pay for the execution.
    OutOfFund,
    /// An opcode reached beyond the data it may read.
    OutOfOffset,
    /// The call stack grew too deep.
    CallTooDeep,
}

impl TransactionStatus {
    /// The execution succeeded.
    pub fn is_ok(&self) -> (r: bool)
        ensures
            r == (*self is Succeed),
    {
        match self {
            TransactionStatus::Succeed(_) => true,
            _ => false,
        }
    }

    /// The contract reverted.
    pub fn is_revert(&self) -> (r: bool)
        ensures
            r == (*self is Revert),
    {
        match self {
            TransactionStatus::Revert(_) => true,
            _ => false,
        }
    }

    /// The execution failed without a revert.
    pub fn is_fail(&self) -> (r: bool)
        ensures
            r == !(*self is Succeed || *self is Revert),
    {
        match self {
            TransactionStatus::Succeed(_) => false,
            TransactionStatus::Revert(_) => false,
            _ => true,
        }
    }
}

/// The result of a submitted transaction.
#[derive(Clone, Debug, PartialEq, Eq)]
pub struct SubmitResult {
    /// How the execution ended.
    pub status: TransactionStatus,
    /// The gas that the execution used.
    pub gas_used: u64,
    /// The logs of the execution, in the order in which they were emitted.
    pub logs: Vec<Log>,
}

impl SubmitResult {
    /// The result with this status, gas and logs.
    pub fn new(status: TransactionStatus, gas_used: u64, logs: Vec<Log>) -> (r: Self)
        ensures
            r.status == status,
            r.gas_used == gas_used,
            r.logs == logs,
    {
        SubmitResult { status, gas_used, logs }
    }
}

/// What an execution that changes state hands back.
#[derive(Clone, Debug, PartialEq, Eq)]
pub struct TransactResult {
    /// The status and the gas used.
    pub submit_result: SubmitResult,
    /// The logs of the execution, in the order in which they were emitted.
    pub logs: Vec<Log>,
}

/// An error of the virtual machine that is no status of its own.
#[derive(Clone, Debug, PartialEq, Eq)]
pub enum ExitError {
    StackUnderflow,
    StackOverflow,
    InvalidJump,
    InvalidRange,
    DesignatedInvalid,
    CallTooDeep,
    CreateCollision,
    CreateContractLimit,
    InvalidCode(u8),
    OutOfOffset,
    OutOfGas,
    OutOfFund,
    PCUnderflow,
    CreateEmpty,
    Other(String),
    MaxNonce,
    UsizeOverflow,
    CreateContractStartingWithEF,
}

/// A fault of the virtual machine itself. The enclosing invocation must be
/// abandoned.
#[derive(Clone, Debug, PartialEq, Eq)]
pub enum ExitFatal {
    NotSupported,
    UnhandledInterrupt,
    CallErrorAsFatal(ExitError),
    Other(String),
}

/// Why the virtual machine stopped.
#[derive(Clone, Debug, PartialEq, Eq)]
pub enum ExitReason {
    /// It reached a stop, a return or a self-destruct.
    Succeed,
    /// It met an error.
    Error(ExitError),
    /// The contract reverted.
    Revert,
    /// It met a fault.
    Fatal(ExitFatal),
}

/// Why an execution did not run to an end with a status.
#[derive(Clone, Debug, PartialEq, Eq)]
pub enum TransactErrorKind {
    /// The input was malformed beyond what counts as a revert.
    EvmError(ExitError),
    /// A fault of the virtual machine: not to be taken for a revert.
    EvmFatal(ExitFatal),
}

/// What an execution returns: a result, or the reason why there is none.
pub type TransactExecutionResult<T> = Result<T, TransactErrorKind>;

/// The one classification of exits that every backend shares.
///
/// A success and a revert are statuses and carry the returned bytes.
/// Running out of gas, of funds or of offset and too deep a call stack are
/// statuses too. Any other error of the machine, and any fault, is no
/// status: the execution fails with it.
pub open spec fn status_of(reason: ExitReason, output: Vec<u8>) -> TransactExecutionResult<
    TransactionStatus,
> {
    match reason {
        ExitReason::Succeed => Ok(TransactionStatus::Succeed(output)),
        ExitReason::Revert => Ok(TransactionStatus::Revert(output)),
        ExitReason::Error(ExitError::OutOfGas) => Ok(TransactionStatus::OutOfGas),
        ExitReason::Error(ExitError::OutOfFund) => Ok(TransactionStatus::OutOfFund),
        ExitReason::Error(ExitError::OutOfOffset) => Ok(TransactionStatus::OutOfOffset),
        ExitReason::Error(ExitError::CallTooDeep) => Ok(TransactionStatus::CallTooDeep),
        ExitReason::Error(e) => Err(TransactErrorKind::EvmError(e)),
        ExitReason::Fatal(e) => Err(TransactErrorKind::EvmFatal(e)),
    }
}

/// Classifies an exit of the virtual machine: see [`status_of`].
pub fn exit_reason_into_result(reason: ExitReason, output: Vec<u8>) -> (r: TransactExecutionResult<
    TransactionStatus,
>)
    ensures
        r == status_of(reason, output),
{
    match reason {
        ExitReason::Succeed => Ok(TransactionStatus::Succeed(output)),
        ExitReason::Revert => Ok(TransactionStatus::Revert(output)),
        ExitReason::Error(ExitError::OutOfGas) => Ok(TransactionStatus::OutOfGas),
        ExitReason::Error(ExitError::OutOfFund) => Ok(TransactionStatus::OutOfFund),
        ExitReason::Error(ExitError::OutOfOffset) => Ok(TransactionStatus::OutOfOffset),
        ExitReason::Error(ExitError::CallTooDeep) => Ok(TransactionStatus::CallTooDeep),
        ExitReason::Error(e) => Err(TransactErrorKind::EvmError(e)),
        ExitReason::Fatal(e) => Err(TransactErrorKind::EvmFatal(e)),
    }
}

/// What it means for `result` to be what a backend hands back for an
/// execution that changes state, given how the machine stopped.
///
/// Where the exit is a status, the result holds that status with the gas
/// used, and the logs twice, each time in the order in which the machine
/// emitted them: as they came, and as a copy in the submit result. A fault
/// or an error that is no status hands back no result.
pub open spec fn assembled_from(
    reason: ExitReason,
    output: Vec<u8>,
    gas_used: u64,
    logs: Vec<Log>,
    result: TransactExecutionResult<TransactResult>,
) -> bool {
    match status_of(reason, output) {
        Ok(status) => {
            &&& result is Ok
            &&& result->Ok_0.submit_result.status == status
            &&& result->Ok_0.submit_result.gas_used == gas_used
            &&& logs_view(result->Ok_0.submit_result.logs@) == logs_view(logs@)
            &&& result->Ok_0.logs == logs
        },
        Err(e) => result == Err::<TransactResult, TransactErrorKind>(e),
    }
}

impl TransactResult {
    /// Assembles what a backend hands back for an execution that changes
    /// state: see [`assembled_from`].
    pub fn assemble(reason: ExitReason, output: Vec<u8>, gas_used: u64, logs: Vec<Log>) -> (r:
        TransactExecutionResult<TransactResult>)
        ensures
            assembled_from(reason, output, gas_used, logs, r),
    {
        match exit_reason_into_result(reason, output) {
            Ok(status) => {
                let result_logs = copy_logs(&logs);
                Ok(
                    TransactResult {
                        submit_result: SubmitResult::new(status, gas_used, result_logs),
                        logs,
                    },
                )
            },
            Err(e) => Err(e),
        }
    }
}

/// Backends that see the same exit hand back the same outcome: two results
/// assembled from one exit agree on whether there is a result, on the
/// status, on the gas, and on the sequence of logs; or on the error.
pub proof fn law_same_exit_same_result(
    reason: ExitReason,
    output: Vec<u8>,
    gas_used: u64,
    logs: Vec<Log>,
    first: TransactExecutionResult<TransactResult>,
    second: TransactExecutionResult<TransactResult>,
)
    requires
        assembled_from(reason, output, gas_used, logs, first),
        assembled_from(reason, output, gas_used, logs, second),
    ensures
        first is Ok <==> second is Ok,
        first is Ok ==> {
            &&& first->Ok_0.submit_result.status == second->Ok_0.submit_result.status
            &&& first->Ok_0.submit_result.gas_used == second->Ok_0.submit_result.gas_used
            &&& logs_view(first->Ok_0.submit_result.logs@) == logs_view(
                second->Ok_0.submit_result.logs@,
            )
            &&& logs_view(first->Ok_0.logs@) == logs_view(second->Ok_0.logs@)
        },
        first is Err ==> first == second,
{
}

} // verus!
