use byte_slice_cast::AsByteSlice;
use engine_evm::account::{Account, Domain};
use engine_evm::account_id::AccountId;
use engine_evm::connector::{Connector, DepositError, RoutedTransferError, WithdrawResult};
use engine_evm::gate::{DepositedEvent, ProofError, ProofId, ProofVerdict};
use engine_evm::model::{AccountingError, CallbackOutcome};
use engine_evm::primitives::H160;
use engine_evm::routing::MessageError;

const DEPOSITED_RECIPIENT: &str = "eth_recipient.root";
const CUSTODIAN_ADDRESS: &str = "096de9c2b8a5b8c22cee3289b101f6960d68e51e";
const RECIPIENT_ETH_ADDRESS: &str = "891b2749238b27ff58e951088e55b04de71dc374";
const ENGINE_ACC: &str = "aurora.root";
const CONTRACT_ACC: &str = "eth_connector.root";
const DEPOSITED_AMOUNT: u128 = 800400;
const DEPOSITED_FEE: u128 = 400;
const DEPOSITED_EVM_AMOUNT: u128 = 10200;

fn account_id(name: &str) -> AccountId {
    AccountId::new(name).unwrap()
}

fn validate_eth_address(address: &str) -> H160 {
    let mut bytes = [0u8; 20];
    hex::decode_to_slice(address, &mut bytes).unwrap();
    H160(bytes)
}

fn proof_data_near() -> ProofVerdict {
    ProofVerdict::Valid(DepositedEvent {
        chain_id: 1,
        block_height: 12_345,
        event_index: 0,
        recipient: Account::Host(account_id(DEPOSITED_RECIPIENT)),
        amount: DEPOSITED_AMOUNT,
        fee: DEPOSITED_FEE,
        message: None,
    })
}

fn proof_data_eth() -> ProofVerdict {
    ProofVerdict::Valid(DepositedEvent {
        chain_id: 1,
        block_height: 12_346,
        event_index: 3,
        recipient: Account::Vm(validate_eth_address(RECIPIENT_ETH_ADDRESS)),
        amount: DEPOSITED_EVM_AMOUNT,
        fee: 0,
        message: Some(RECIPIENT_ETH_ADDRESS.as_bytes().to_vec()),
    })
}

fn new_contract(contract: &str) -> Connector {
    Connector::new(
        Account::Host(account_id(contract)),
        validate_eth_address(CUSTODIAN_ADDRESS),
    )
}

fn call_deposit_eth_to_near(contract: &str) -> Connector {
    let mut connector = new_contract(contract);
    assert!(connector.deposit(proof_data_near()).is_ok());
    connector
}

#[test]
fn test_aurora_ft_transfer() {
    let mut contract = new_contract(CONTRACT_ACC);
    let res = contract.deposit(proof_data_near());
    assert!(res.is_ok());

    let transfer_amount = 70;
    let receiver_id = account_id(DEPOSITED_RECIPIENT);
    let res = contract.ft_transfer(&account_id(CONTRACT_ACC), &receiver_id, transfer_amount);
    assert!(res.is_ok());

    let balance = contract.ft_balance_of(&receiver_id);
    assert_eq!(balance, DEPOSITED_AMOUNT - DEPOSITED_FEE + transfer_amount);

    let balance = contract.ft_balance_of(&account_id(CONTRACT_ACC));
    assert_eq!(balance, DEPOSITED_FEE - transfer_amount);

    let balance = contract.ft_total_supply();
    assert_eq!(balance, DEPOSITED_AMOUNT);

    let balance = contract.ledger.supply_of(Domain::Vm);
    assert_eq!(balance, 0);

    let balance = contract.ledger.supply_of(Domain::Host);
    assert_eq!(balance, DEPOSITED_AMOUNT);
}

#[test]
fn test_ft_transfer() {
    let mut contract = call_deposit_eth_to_near(ENGINE_ACC);

    let transfer_amount = 70;
    let receiver_id = account_id(DEPOSITED_RECIPIENT);
    let res = contract.ft_transfer(&account_id(ENGINE_ACC), &receiver_id, transfer_amount);
    assert!(res.is_ok());

    assert_eq!(
        contract.ft_balance_of(&receiver_id),
        DEPOSITED_AMOUNT - DEPOSITED_FEE + transfer_amount
    );
    assert_eq!(
        contract.ft_balance_of(&account_id(ENGINE_ACC)),
        DEPOSITED_FEE - transfer_amount
    );
    assert_eq!(contract.ledger.supply_of(Domain::Host), DEPOSITED_AMOUNT);
    assert_eq!(contract.ledger.supply_of(Domain::Vm), 0);
    assert_eq!(contract.ft_total_supply(), DEPOSITED_AMOUNT);
}

#[test]
fn test_withdraw_eth_from_near() {
    let mut contract = call_deposit_eth_to_near(ENGINE_ACC);

    let withdraw_amount: u128 = 100;
    let recipient_addr = validate_eth_address(RECIPIENT_ETH_ADDRESS);
    let receiver_id = account_id(DEPOSITED_RECIPIENT);
    let res = contract.withdraw(
        &Account::Host(account_id(ENGINE_ACC)),
        recipient_addr,
        withdraw_amount,
    );
    assert!(res.is_ok());

    let data: WithdrawResult = res.unwrap();
    let custodian_addr = validate_eth_address(CUSTODIAN_ADDRESS);
    assert_eq!(data.recipient_id, recipient_addr);
    assert_eq!(data.amount, withdraw_amount);
    assert_eq!(data.eth_custodian_address, custodian_addr);

    assert_eq!(
        contract.ft_balance_of(&account_id(ENGINE_ACC)),
        DEPOSITED_FEE - withdraw_amount
    );
    assert_eq!(contract.ft_balance_of(&receiver_id), DEPOSITED_AMOUNT - DEPOSITED_FEE);
    assert_eq!(contract.ft_total_supply(), DEPOSITED_AMOUNT - withdraw_amount);
}

#[test]
fn test_deposit_eth_to_near_balance_total_supply() {
    let contract = call_deposit_eth_to_near(ENGINE_ACC);
    assert!(contract.is_used_proof(&ProofId { chain_id: 1, block_height: 12_345, event_index: 0 }));

    let receiver_id = account_id(DEPOSITED_RECIPIENT);
    assert_eq!(contract.ft_balance_of(&account_id(ENGINE_ACC)), DEPOSITED_FEE);
    assert_eq!(contract.ft_balance_of(&receiver_id), DEPOSITED_AMOUNT - DEPOSITED_FEE);
    assert_eq!(contract.ledger.supply_of(Domain::Vm), 0);
    assert_eq!(contract.ledger.supply_of(Domain::Host), DEPOSITED_AMOUNT);
    assert_eq!(contract.ft_total_supply(), DEPOSITED_AMOUNT);
}

#[test]
fn deposit_into_the_embedded_machine() {
    let mut contract = new_contract(ENGINE_ACC);
    let admitted = contract.deposit(proof_data_eth()).unwrap();
    assert_eq!(admitted.amount, DEPOSITED_EVM_AMOUNT);
    assert_eq!(admitted.message, Some(RECIPIENT_ETH_ADDRESS.as_bytes().to_vec()));
    assert!(contract.is_used_proof(&ProofId { chain_id: 1, block_height: 12_346, event_index: 3 }));

    let recipient = Account::Vm(validate_eth_address(RECIPIENT_ETH_ADDRESS));
    assert_eq!(contract.balance_of(&recipient), DEPOSITED_EVM_AMOUNT);
    assert_eq!(contract.total_supply(), DEPOSITED_EVM_AMOUNT);
    assert_eq!(contract.ledger.supply_of(Domain::Vm), DEPOSITED_EVM_AMOUNT);
    assert_eq!(contract.ledger.supply_of(Domain::Host), 0);
}

#[test]
fn transfer_call_routed_by_its_message() {
    let mut contract = call_deposit_eth_to_near(ENGINE_ACC);

    let receiver_id = account_id(DEPOSITED_RECIPIENT);
    assert_eq!(contract.ft_balance_of(&receiver_id), DEPOSITED_AMOUNT - DEPOSITED_FEE);
    assert_eq!(contract.ft_balance_of(&account_id(ENGINE_ACC)), DEPOSITED_FEE);

    let transfer_amount: u128 = 50;
    let fee: u128 = 30;
    let mut msg = aurora_engine_types::U256::from(fee).as_byte_slice().to_vec();
    msg.append(&mut validate_eth_address(RECIPIENT_ETH_ADDRESS).as_bytes().to_vec());
    let message = [CONTRACT_ACC, hex::encode(msg).as_str()].join(":");

    let record = contract
        .ft_transfer_call(&account_id(ENGINE_ACC), transfer_amount, &message)
        .unwrap();
    let recipient = Account::Vm(validate_eth_address(RECIPIENT_ETH_ADDRESS));
    assert_eq!(record.from, Account::Host(account_id(ENGINE_ACC)));
    assert_eq!(record.to, recipient);
    assert_eq!(record.amount, transfer_amount);
    assert_eq!(record.fee, 0);

    assert_eq!(contract.ft_balance_of(&receiver_id), DEPOSITED_AMOUNT - DEPOSITED_FEE);
    assert_eq!(
        contract.ft_balance_of(&account_id(ENGINE_ACC)),
        DEPOSITED_FEE - transfer_amount
    );
    assert_eq!(contract.balance_of(&recipient), transfer_amount);
    assert_eq!(contract.ft_total_supply(), DEPOSITED_AMOUNT);
    assert_eq!(contract.ledger.supply_of(Domain::Vm), transfer_amount);
    assert_eq!(contract.ledger.supply_of(Domain::Host), DEPOSITED_AMOUNT - transfer_amount);

    assert_eq!(contract.resolve_transfer(&record, CallbackOutcome::Confirmed), Ok(()));
    assert_eq!(contract.balance_of(&recipient), transfer_amount);
}

#[test]
fn a_message_that_is_an_address_alone() {
    let mut contract = call_deposit_eth_to_near(ENGINE_ACC);
    let record = contract
        .ft_transfer_call(&account_id(ENGINE_ACC), 7, RECIPIENT_ETH_ADDRESS)
        .unwrap();
    assert_eq!(record.to, Account::Vm(validate_eth_address(RECIPIENT_ETH_ADDRESS)));
    assert_eq!(
        contract.balance_of(&Account::Vm(validate_eth_address(RECIPIENT_ETH_ADDRESS))),
        7
    );
    // The callback fails: the funds return to the sender on the host ledger.
    assert_eq!(contract.resolve_transfer(&record, CallbackOutcome::Failed), Ok(()));
    assert_eq!(contract.ft_balance_of(&account_id(ENGINE_ACC)), DEPOSITED_FEE);
    assert_eq!(contract.ledger.supply_of(Domain::Vm), 0);
    assert_eq!(contract.ft_total_supply(), DEPOSITED_AMOUNT);
}

#[test]
fn messages_that_name_no_recipient() {
    let mut contract = call_deposit_eth_to_near(ENGINE_ACC);
    let sender = account_id(ENGINE_ACC);
    let address_and_fee =
        format!("{}{}", "00".repeat(32), RECIPIENT_ETH_ADDRESS);
    let cases = [
        (String::from("not a message"), MessageError::TooManyParts),
        (
            format!("{}zz", &RECIPIENT_ETH_ADDRESS[..38]),
            MessageError::InvalidHexData,
        ),
        (
            format!("{}:{}", CONTRACT_ACC, RECIPIENT_ETH_ADDRESS),
            MessageError::WrongMessageFormat,
        ),
        (
            format!("Not.An.Account:{}", address_and_fee),
            MessageError::InvalidAccount,
        ),
        (
            format!("{}:{}{}", CONTRACT_ACC, "ff".repeat(32), RECIPIENT_ETH_ADDRESS),
            MessageError::OverflowNumber,
        ),
    ];
    for (message, error) in cases {
        assert_eq!(
            contract.ft_transfer_call(&sender, 10, &message),
            Err(RoutedTransferError::Message(error)),
            "{}",
            message
        );
    }
    assert_eq!(contract.ft_balance_of(&sender), DEPOSITED_FEE);
    assert_eq!(contract.ft_total_supply(), DEPOSITED_AMOUNT);
    // The same route, once parsed, with more than the sender holds.
    assert_eq!(
        contract.ft_transfer_call(&sender, DEPOSITED_FEE + 1, RECIPIENT_ETH_ADDRESS),
        Err(RoutedTransferError::Accounting(AccountingError::InsufficientBalance))
    );
    assert_eq!(
        contract.transfer_call_routed(
            &sender,
            1,
            Err(MessageError::WrongMessageFormat)
        ),
        Err(RoutedTransferError::Message(MessageError::WrongMessageFormat))
    );
    assert!(contract
        .transfer_call_routed(&sender, 1, Ok(validate_eth_address(RECIPIENT_ETH_ADDRESS)))
        .is_ok());
}

fn proof_of(amount: u128, fee: u128) -> ProofVerdict {
    ProofVerdict::Valid(DepositedEvent {
        chain_id: 1,
        block_height: 500,
        event_index: 1,
        recipient: Account::Host(account_id("alice.near")),
        amount,
        fee,
        message: None,
    })
}

#[test]
fn deposit_credits_recipient_and_fee_collector() {
    let mut connector = new_contract(ENGINE_ACC);
    connector.ledger.credit(&Account::Host(account_id("bob.near")), 77).unwrap();
    let before = connector.ft_total_supply();
    let admitted = connector.deposit(proof_of(10000, 150)).unwrap();
    assert_eq!(admitted.amount, 10000);
    assert_eq!(admitted.fee, 150);
    assert_eq!(admitted.recipient, Account::Host(account_id("alice.near")));
    assert_eq!(connector.ft_balance_of(&account_id("alice.near")), 10000 - 150);
    assert_eq!(connector.ft_balance_of(&account_id(ENGINE_ACC)), 150);
    assert_eq!(connector.ft_balance_of(&account_id("bob.near")), 77);
    assert_eq!(connector.ft_total_supply(), before + 10000);
}

#[test]
fn withdraw_burns_and_attests() {
    let mut connector = new_contract(ENGINE_ACC);
    let alice = Account::Host(account_id("alice.near"));
    connector.ledger.credit(&alice, 10000).unwrap();
    let recipient = validate_eth_address(RECIPIENT_ETH_ADDRESS);
    let result = connector.withdraw(&alice, recipient, 100).unwrap();
    assert_eq!(result.amount, 100);
    assert_eq!(result.recipient_id, recipient);
    assert_eq!(result.eth_custodian_address, validate_eth_address(CUSTODIAN_ADDRESS));
    assert_eq!(connector.balance_of(&alice), 9900);
    assert_eq!(connector.total_supply(), 9900);
    // The same withdrawal gives the same attestation.
    let again = connector.withdraw(&alice, recipient, 100).unwrap();
    assert_eq!(again, result);
    assert_eq!(connector.balance_of(&alice), 9800);
}

#[test]
fn withdraw_of_more_than_is_held_is_refused() {
    let mut connector = new_contract(ENGINE_ACC);
    let alice = Account::Host(account_id("alice.near"));
    connector.ledger.credit(&alice, 99).unwrap();
    let recipient = validate_eth_address(RECIPIENT_ETH_ADDRESS);
    assert_eq!(
        connector.withdraw(&alice, recipient, 100),
        Err(AccountingError::InsufficientBalance)
    );
    assert_eq!(connector.balance_of(&alice), 99);
    assert_eq!(connector.total_supply(), 99);
    // From the embedded machine as well.
    let address = Account::Vm(validate_eth_address(RECIPIENT_ETH_ADDRESS));
    connector.ledger.credit(&address, 5).unwrap();
    assert!(connector.withdraw(&address, recipient, 5).is_ok());
    assert_eq!(connector.total_supply(), 99);
}

#[test]
fn a_replayed_proof_is_refused() {
    let mut connector = new_contract(ENGINE_ACC);
    connector.deposit(proof_of(10000, 150)).unwrap();
    let alice = connector.ft_balance_of(&account_id("alice.near"));
    let fees = connector.ft_balance_of(&account_id(ENGINE_ACC));
    let total = connector.ft_total_supply();
    assert_eq!(
        connector.deposit(proof_of(10000, 150)),
        Err(DepositError::Proof(ProofError::AlreadyUsed))
    );
    assert_eq!(connector.ft_balance_of(&account_id("alice.near")), alice);
    assert_eq!(connector.ft_balance_of(&account_id(ENGINE_ACC)), fees);
    assert_eq!(connector.ft_total_supply(), total);
    assert_eq!(alice, 9850);
    assert_eq!(fees, 150);
    assert_eq!(total, 10000);
}

#[test]
fn a_refused_deposit_does_not_consume_its_proof() {
    let mut connector = new_contract(ENGINE_ACC);
    let id = ProofId { chain_id: 1, block_height: 500, event_index: 1 };
    assert_eq!(
        connector.deposit(ProofVerdict::Invalid),
        Err(DepositError::Proof(ProofError::InvalidProof))
    );
    assert_eq!(
        connector.deposit(proof_of(10, 11)),
        Err(DepositError::Accounting(AccountingError::FeeExceedsAmount))
    );
    assert!(!connector.is_used_proof(&id));
    connector.ledger.credit(&Account::Host(account_id("bob.near")), u128::MAX - 9).unwrap();
    assert_eq!(
        connector.deposit(proof_of(10, 1)),
        Err(DepositError::Accounting(AccountingError::SupplyOverflow))
    );
    assert!(!connector.is_used_proof(&id));
    assert_eq!(connector.ft_balance_of(&account_id("alice.near")), 0);
    // The proof is still good for a deposit that fits.
    assert!(connector.deposit(proof_of(9, 1)).is_ok());
    assert!(connector.is_used_proof(&id));
    assert_eq!(connector.ft_total_supply(), u128::MAX);
    // A replay is named as such even where the deposit would not fit.
    assert_eq!(
        connector.deposit(proof_of(10, 11)),
        Err(DepositError::Proof(ProofError::AlreadyUsed))
    );
}

#[test]
fn transfers_through_the_connector() {
    let mut connector = call_deposit_eth_to_near(ENGINE_ACC);
    let receiver = Account::Host(account_id(DEPOSITED_RECIPIENT));
    let address = Account::Vm(validate_eth_address(RECIPIENT_ETH_ADDRESS));
    assert_eq!(connector.transfer(&receiver, &address, 1000, 10), Ok(()));
    assert_eq!(connector.balance_of(&address), 990);
    assert_eq!(connector.ft_balance_of(&account_id(ENGINE_ACC)), DEPOSITED_FEE + 10);
    assert_eq!(
        connector.transfer(&address, &receiver, 991, 0),
        Err(AccountingError::InsufficientBalance)
    );
    assert_eq!(
        connector.transfer(&address, &receiver, 5, 6),
        Err(AccountingError::FeeExceedsAmount)
    );
    let record = connector.transfer_call(&address, &receiver, 90, 0).unwrap();
    assert_eq!(connector.balance_of(&address), 900);
    assert_eq!(connector.resolve_transfer(&record, CallbackOutcome::Failed), Ok(()));
    assert_eq!(connector.balance_of(&address), 990);
    assert_eq!(
        connector.resolve_transfer(&record, CallbackOutcome::Failed),
        Err(AccountingError::UnknownTransfer)
    );
    assert_eq!(connector.ft_total_supply(), DEPOSITED_AMOUNT);
}
