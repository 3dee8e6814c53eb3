use engine_evm::outcome::{
    copy_logs, exit_reason_into_result, ExitError, ExitFatal, ExitReason, SubmitResult,
};
use engine_evm::primitives::{H160, H256, Wei};
use engine_evm::{
    init_evm, BlockInfo, EVMHandler, EngineEVM, Log, TransactErrorKind, TransactExecutionResult,
    TransactResult, TransactionInfo, TransactionStatus,
};

fn log(tag: u8) -> Log {
    Log { address: H160([tag; 20]), topics: vec![H256([tag; 32]), H256([0; 32])], data: vec![tag] }
}

/// A backend that replays a script of exits and counts what it is asked.
struct Scripted {
    transaction: TransactionInfo,
    exits: Vec<(ExitReason, Vec<u8>, u64, Vec<Log>)>,
    asked: Vec<&'static str>,
}

impl Scripted {
    fn new(transaction: TransactionInfo, exits: Vec<(ExitReason, Vec<u8>, u64, Vec<Log>)>) -> Self {
        Scripted { transaction, exits, asked: Vec::new() }
    }

    fn next(&mut self) -> TransactExecutionResult<TransactResult> {
        let (reason, output, gas_used, logs) = self.exits.remove(0);
        TransactResult::assemble(reason, output, gas_used.min(self.transaction.gas_limit), logs)
    }
}

impl EVMHandler for Scripted {
    fn transact_create(&mut self) -> TransactExecutionResult<TransactResult> {
        self.asked.push("create");
        self.next()
    }

    fn transact_call(&mut self) -> TransactExecutionResult<TransactResult> {
        self.asked.push("call");
        self.next()
    }

    fn view(&mut self) -> TransactExecutionResult<TransactionStatus> {
        self.asked.push("view");
        self.next().map(|result| result.submit_result.status)
    }
}

/// Another backend: it keeps its script the other way round.
struct Reversed {
    exits: Vec<(ExitReason, Vec<u8>, u64, Vec<Log>)>,
}

impl EVMHandler for Reversed {
    fn transact_create(&mut self) -> TransactExecutionResult<TransactResult> {
        let (reason, output, gas_used, logs) = self.exits.pop().unwrap();
        TransactResult::assemble(reason, output, gas_used, logs)
    }

    fn transact_call(&mut self) -> TransactExecutionResult<TransactResult> {
        self.transact_create()
    }

    fn view(&mut self) -> TransactExecutionResult<TransactionStatus> {
        self.transact_create().map(|result| result.submit_result.status)
    }
}

fn call_to(target: u8) -> TransactionInfo {
    TransactionInfo {
        origin: H160([1; 20]),
        value: Wei::new_u64(5),
        input: vec![0xde, 0xad],
        address: Some(H160([target; 20])),
        gas_limit: 21_000,
        access_list: vec![(H160([target; 20]), vec![H256([9; 32])])],
    }
}

fn script() -> Vec<(ExitReason, Vec<u8>, u64, Vec<Log>)> {
    vec![
        (ExitReason::Succeed, vec![1, 2], 100, vec![log(1), log(2), log(3)]),
        (ExitReason::Revert, vec![3], 200, vec![]),
        (ExitReason::Error(ExitError::OutOfGas), vec![], 21_000, vec![log(4)]),
        (ExitReason::Error(ExitError::InvalidCode(0xef)), vec![], 10, vec![]),
        (ExitReason::Fatal(ExitFatal::NotSupported), vec![], 10, vec![]),
    ]
}

#[test]
fn the_facade_forwards_to_its_backend() {
    let mut direct = Scripted::new(call_to(7), script());
    let mut engine = EngineEVM::new(Scripted::new(call_to(7), script()));

    assert_eq!(engine.transact_call(), direct.transact_call());
    assert_eq!(engine.transact_call(), direct.transact_call());
    assert_eq!(engine.view(), direct.view());
    assert_eq!(engine.view(), direct.view());
    assert_eq!(engine.transact_call(), direct.transact_call());

    let backend = engine.into_handler();
    assert_eq!(backend.asked, vec!["call", "call", "view", "view", "call"]);
    assert_eq!(backend.asked, direct.asked);
    assert!(backend.exits.is_empty());
}

#[test]
fn the_facade_forwards_a_creation() {
    let create = TransactionInfo { address: None, ..call_to(7) };
    assert!(create.is_fit_for_create());
    let mut direct = Scripted::new(create.clone(), script());
    let mut engine = init_evm(Scripted::new(create, script()));
    let created = engine.transact_create();
    assert_eq!(created, direct.transact_create());
    assert_eq!(created.unwrap().submit_result.status, TransactionStatus::Succeed(vec![1, 2]));
    let backend = engine.into_handler();
    assert_eq!(backend.asked, vec!["create"]);
    assert_eq!(backend.exits.len(), 4);
}

#[test]
fn the_facade_hands_back_status_gas_and_logs() {
    let mut engine = init_evm(Scripted::new(call_to(7), script()));

    let result = engine.transact_call().unwrap();
    assert_eq!(result.submit_result.status, TransactionStatus::Succeed(vec![1, 2]));
    assert_eq!(result.submit_result.gas_used, 100);
    assert_eq!(result.logs, vec![log(1), log(2), log(3)]);
    assert_eq!(result.submit_result.logs, vec![log(1), log(2), log(3)]);

    let result = engine.transact_call().unwrap();
    assert_eq!(result.submit_result.status, TransactionStatus::Revert(vec![3]));
    assert!(result.logs.is_empty());

    assert_eq!(engine.view(), Ok(TransactionStatus::OutOfGas));
    assert_eq!(
        engine.transact_call(),
        Err(TransactErrorKind::EvmError(ExitError::InvalidCode(0xef)))
    );
    assert_eq!(
        engine.transact_call(),
        Err(TransactErrorKind::EvmFatal(ExitFatal::NotSupported))
    );
}

#[test]
fn backends_that_see_the_same_exits_agree() {
    let mut first = init_evm(Scripted::new(call_to(7), script()));
    let mut reversed_script = script();
    reversed_script.reverse();
    let mut second = init_evm(Reversed { exits: reversed_script });
    for _ in 0..5 {
        let a = first.transact_call();
        let b = second.transact_call();
        match (&a, &b) {
            (Ok(a), Ok(b)) => {
                assert_eq!(a.submit_result.status, b.submit_result.status);
                assert_eq!(a.logs, b.logs);
                assert_eq!(a.submit_result.logs, b.submit_result.logs);
            }
            _ => assert_eq!(a, b),
        }
    }
}

#[test]
fn a_transaction_is_fit_for_one_kind_of_execution() {
    let call = call_to(7);
    assert!(call.is_fit_for_call());
    assert!(!call.is_fit_for_create());
    assert!(!call.is_create());

    let create = TransactionInfo { address: None, ..call_to(7) };
    assert!(create.is_fit_for_create());
    assert!(!create.is_fit_for_call());
    assert!(create.is_create());

    let no_gas = TransactionInfo { gas_limit: 0, ..call_to(7) };
    assert!(!no_gas.is_fit_for_call());
    assert!(!no_gas.is_fit_for_create());
    let no_gas_create = TransactionInfo { gas_limit: 0, address: None, ..call_to(7) };
    assert!(!no_gas_create.is_fit_for_create());
}

#[test]
fn the_default_context_is_all_zero() {
    let transaction = TransactionInfo::default();
    assert_eq!(transaction.origin, H160([0; 20]));
    assert_eq!(transaction.value, Wei::zero());
    assert!(transaction.value.is_zero());
    assert!(transaction.input.is_empty());
    assert_eq!(transaction.address, None);
    assert_eq!(transaction.gas_limit, 0);
    assert!(transaction.access_list.is_empty());

    let block = BlockInfo::default();
    assert!(block.gas_price.is_zero());
    assert!(block.current_account_id.is_default());
    assert_eq!(block.chain_id, [0u8; 32]);
}

#[test]
fn every_exit_has_one_classification() {
    let out = vec![7u8, 8];
    assert_eq!(
        exit_reason_into_result(ExitReason::Succeed, out.clone()),
        Ok(TransactionStatus::Succeed(out.clone()))
    );
    assert_eq!(
        exit_reason_into_result(ExitReason::Revert, out.clone()),
        Ok(TransactionStatus::Revert(out.clone()))
    );
    let statuses = [
        (ExitError::OutOfGas, TransactionStatus::OutOfGas),
        (ExitError::OutOfFund, TransactionStatus::OutOfFund),
        (ExitError::OutOfOffset, TransactionStatus::OutOfOffset),
        (ExitError::CallTooDeep, TransactionStatus::CallTooDeep),
    ];
    for (error, status) in statuses {
        assert_eq!(exit_reason_into_result(ExitReason::Error(error), out.clone()), Ok(status));
    }
    let errors = [
        ExitError::StackUnderflow,
        ExitError::StackOverflow,
        ExitError::InvalidJump,
        ExitError::InvalidRange,
        ExitError::DesignatedInvalid,
        ExitError::CreateCollision,
        ExitError::CreateContractLimit,
        ExitError::InvalidCode(0xfe),
        ExitError::PCUnderflow,
        ExitError::CreateEmpty,
        ExitError::Other(String::from("other")),
        ExitError::MaxNonce,
        ExitError::UsizeOverflow,
        ExitError::CreateContractStartingWithEF,
    ];
    for error in errors {
        assert_eq!(
            exit_reason_into_result(ExitReason::Error(error.clone()), out.clone()),
            Err(TransactErrorKind::EvmError(error))
        );
    }
    let faults = [
        ExitFatal::NotSupported,
        ExitFatal::UnhandledInterrupt,
        ExitFatal::CallErrorAsFatal(ExitError::OutOfGas),
        ExitFatal::Other(String::from("fault")),
    ];
    for fault in faults {
        assert_eq!(
            exit_reason_into_result(ExitReason::Fatal(fault.clone()), out.clone()),
            Err(TransactErrorKind::EvmFatal(fault))
        );
    }
}

#[test]
fn statuses_tell_success_revert_and_failure_apart() {
    let ok = TransactionStatus::Succeed(vec![]);
    let revert = TransactionStatus::Revert(vec![1]);
    assert!(ok.is_ok() && !ok.is_revert() && !ok.is_fail());
    assert!(!revert.is_ok() && revert.is_revert() && !revert.is_fail());
    for status in [
        TransactionStatus::OutOfGas,
        TransactionStatus::OutOfFund,
        TransactionStatus::OutOfOffset,
        TransactionStatus::CallTooDeep,
    ] {
        assert!(!status.is_ok() && !status.is_revert() && status.is_fail());
    }
}

#[test]
fn logs_are_copied_in_their_order() {
    let logs = vec![log(3), log(1), log(2)];
    let copy = copy_logs(&logs);
    assert_eq!(copy, logs);
    assert_eq!(log(5).clone(), log(5));
    let result = SubmitResult::new(TransactionStatus::OutOfFund, 9, copy);
    assert_eq!(result.gas_used, 9);
    assert_eq!(result.logs[0], log(3));
    assert_eq!(result.status, TransactionStatus::OutOfFund);
}
