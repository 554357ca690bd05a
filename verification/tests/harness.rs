use txn_harness::account::Account;
use txn_harness::account::AccountData;
use txn_harness::account::Address;
use txn_harness::account::Script;
use txn_harness::account::TransactionPayload;
use txn_harness::assert_prologue_disparity;
use txn_harness::assert_prologue_parity;
use txn_harness::assert_status_eq;
use txn_harness::compile::compile_module_with_address;
use txn_harness::config::VMPublishingOption;
use txn_harness::executor::FakeExecutor;
use txn_harness::executor::GAS_USED_PER_TXN;
use txn_harness::status::AbortLocation;
use txn_harness::status::StatusCode;
use txn_harness::status::TransactionStatus;
use txn_harness::status::VMStatus;
use txn_harness::transaction_status_eq;

fn module_txn(
    sender: &AccountData,
    sequence_number: u64,
    max_gas: u64,
    gas_price: u64,
) -> txn_harness::account::SignedTransaction {
    let program = String::from(
        "
        module M {
        }
        ",
    );
    let compiled = compile_module_with_address(sender.address(), "file_name", &program).unwrap();
    sender.account().create_signed_txn_impl(
        *sender.address(),
        TransactionPayload::Module(compiled),
        sequence_number,
        max_gas,
        gas_price,
        String::from("LBR"),
    )
}

// Genesis with the open policy; a funded account publishes an empty module at
// its own sequence number, then tries the same module name again.
#[test]
fn publish_then_duplicate_scenario() {
    let mut executor = FakeExecutor::from_genesis_with_options(VMPublishingOption::open());
    let sender = AccountData::new(Address::new(0x201), 1_000_000, 10);
    executor.add_account_data(&sender);

    let txn1 = module_txn(&sender, 10, 100_000, 1);
    assert_eq!(executor.verify_transaction(txn1.clone()), None);
    let output1 = executor.execute_transaction(txn1);
    assert_eq!(output1.status(), &TransactionStatus::Keep(VMStatus::Executed));
    assert!(!output1.write_set().is_empty());
    executor.apply_write_set(output1.write_set());

    let txn2 = module_txn(&sender, 11, 100_000, 1);
    let output2 = executor.execute_transaction(txn2);
    assert_eq!(
        output2.status(),
        &TransactionStatus::Keep(VMStatus::Error(StatusCode::DuplicateModuleName))
    );
}

// A verification rejection and the matching execution produce the same status
// code, and the execution's write-set is empty.
#[test]
fn verify_execute_parity_scenario() {
    let mut executor = FakeExecutor::from_genesis_with_options(VMPublishingOption::custom_scripts());
    let sender = AccountData::new(Address::new(0x202), 1_000_000, 5);
    executor.add_account_data(&sender);

    let txn = module_txn(&sender, 5, 100_000, 1);
    let verified = executor.verify_transaction(txn.clone());
    let output = executor.execute_transaction(txn);
    assert!(assert_prologue_parity(
        &verified,
        output.status(),
        VMStatus::Error(StatusCode::InvalidModulePublisher),
    ));
    assert!(output.write_set().is_empty());
}

#[test]
fn sending_account_does_not_exist() {
    let executor = FakeExecutor::from_genesis_with_options(VMPublishingOption::open());
    let stranger = AccountData::new(Address::new(0x203), 1_000_000, 0);
    // never registered with the executor
    let txn = module_txn(&stranger, 0, 100_000, 1);
    let verified = executor.verify_transaction(txn.clone());
    let output = executor.execute_transaction(txn);
    assert!(assert_prologue_parity(
        &verified,
        output.status(),
        VMStatus::Error(StatusCode::SendingAccountDoesNotExist),
    ));
}

#[test]
fn invalid_auth_key() {
    let mut executor = FakeExecutor::from_genesis_with_options(VMPublishingOption::open());
    let victim = AccountData::new(Address::new(0x204), 1_000_000, 3);
    let intruder = AccountData::new(Address::new(0x205), 1_000_000, 3);
    executor.add_account_data(&victim);
    executor.add_account_data(&intruder);

    let program = String::from("module M {}");
    let compiled = compile_module_with_address(victim.address(), "file_name", &program).unwrap();
    // signed by the intruder, but naming the victim as sender
    let txn = intruder.account().create_signed_txn_impl(
        *victim.address(),
        TransactionPayload::Module(compiled),
        3,
        100_000,
        1,
        String::from("LBR"),
    );
    let verified = executor.verify_transaction(txn.clone());
    let output = executor.execute_transaction(txn);
    assert!(assert_prologue_parity(
        &verified,
        output.status(),
        VMStatus::Error(StatusCode::InvalidAuthKey),
    ));
}

#[test]
fn sequence_number_too_old_and_too_new() {
    let mut executor = FakeExecutor::from_genesis_with_options(VMPublishingOption::open());
    let sender = AccountData::new(Address::new(0x206), 1_000_000, 10);
    executor.add_account_data(&sender);

    let old_txn = module_txn(&sender, 9, 100_000, 1);
    let verified = executor.verify_transaction(old_txn.clone());
    let output = executor.execute_transaction(old_txn);
    assert!(assert_prologue_parity(
        &verified,
        output.status(),
        VMStatus::Error(StatusCode::SequenceNumberTooOld),
    ));

    let new_txn = module_txn(&sender, 11, 100_000, 1);
    let verified = executor.verify_transaction(new_txn.clone());
    let output = executor.execute_transaction(new_txn);
    assert!(assert_prologue_parity(
        &verified,
        output.status(),
        VMStatus::Error(StatusCode::SequenceNumberTooNew),
    ));
}

#[test]
fn sequence_number_too_big() {
    let mut executor = FakeExecutor::from_genesis_with_options(VMPublishingOption::open());
    let sender = AccountData::new(Address::new(0x207), 1_000_000, u64::MAX);
    executor.add_account_data(&sender);

    let txn = module_txn(&sender, u64::MAX, 100_000, 1);
    let verified = executor.verify_transaction(txn.clone());
    let output = executor.execute_transaction(txn);
    assert!(assert_prologue_parity(
        &verified,
        output.status(),
        VMStatus::Error(StatusCode::SequenceNumberTooBig),
    ));
}

#[test]
fn insufficient_balance_for_fee() {
    let mut executor = FakeExecutor::from_genesis_with_options(VMPublishingOption::open());
    let sender = AccountData::new(Address::new(0x208), 100, 0);
    executor.add_account_data(&sender);

    let txn = module_txn(&sender, 0, 100_000, 1);
    let verified = executor.verify_transaction(txn.clone());
    let output = executor.execute_transaction(txn);
    assert!(assert_prologue_parity(
        &verified,
        output.status(),
        VMStatus::Error(StatusCode::InsufficientBalanceForTransactionFee),
    ));
}

#[test]
fn unknown_script_under_locked_policy() {
    let executor = FakeExecutor::whitelist_genesis();
    let sender = Account::new_libra_root();
    let txn = sender.create_signed_txn_impl(
        *sender.address(),
        TransactionPayload::Script(Script { code: vec![1, 2, 3], args: vec![] }),
        1,
        100_000,
        0,
        String::from("LBR"),
    );
    let verified = executor.verify_transaction(txn.clone());
    let output = executor.execute_transaction(txn);
    assert!(assert_prologue_parity(
        &verified,
        output.status(),
        VMStatus::Error(StatusCode::UnknownScript),
    ));
}

#[test]
fn whitelisted_script_runs_under_locked_policy() {
    let executor = FakeExecutor::from_genesis_with_options(VMPublishingOption::locked(vec![vec![
        1, 2, 3,
    ]]));
    let sender = Account::new_libra_root();
    let txn = sender.create_signed_txn_impl(
        *sender.address(),
        TransactionPayload::Script(Script { code: vec![1, 2, 3], args: vec![] }),
        1,
        100_000,
        0,
        String::from("LBR"),
    );
    assert_eq!(executor.verify_transaction(txn.clone()), None);
    let output = executor.execute_transaction(txn);
    assert_eq!(output.status(), &TransactionStatus::Keep(VMStatus::Executed));
}

// A kept transaction advances the sequence number and debits exactly the
// metered gas at the given unit price.
#[test]
fn epilogue_debits_gas_and_bumps_sequence() {
    let mut executor = FakeExecutor::from_genesis_with_options(VMPublishingOption::open());
    let sender = AccountData::new(Address::new(0x209), 1_000_000, 10);
    executor.add_account_data(&sender);

    let txn = module_txn(&sender, 10, 100_000, 2);
    let output = executor.execute_transaction(txn);
    assert_eq!(output.status(), &TransactionStatus::Keep(VMStatus::Executed));
    executor.apply_write_set(output.write_set());

    let account = executor.read_account_resource(sender.address()).unwrap();
    assert_eq!(account.sequence_number, 11);
    let balance = executor.read_balance(sender.address());
    assert_eq!(balance, 1_000_000 - GAS_USED_PER_TXN * 2);
    assert!(executor.module_exists(sender.address(), &vec!['M']));
}

// Even a kept failure records the sequence bump and gas debit, while the
// module itself is not published.
#[test]
fn kept_failure_still_records_epilogue() {
    let mut executor = FakeExecutor::from_genesis_with_options(VMPublishingOption::open());
    let sender = AccountData::new(Address::new(0x20A), 1_000_000, 7);
    let other = AccountData::new(Address::new(0x20B), 1_000_000, 7);
    executor.add_account_data(&sender);
    executor.add_account_data(&other);

    let program = String::from("module M {}");
    let compiled = compile_module_with_address(other.address(), "file_name", &program).unwrap();
    let txn = sender.account().create_signed_txn_impl(
        *sender.address(),
        TransactionPayload::Module(compiled),
        7,
        100_000,
        1,
        String::from("LBR"),
    );
    let output = executor.execute_transaction(txn);
    assert_eq!(
        output.status(),
        &TransactionStatus::Keep(VMStatus::Error(StatusCode::ModuleAddressDoesNotMatchSender))
    );
    executor.apply_write_set(output.write_set());

    let account = executor.read_account_resource(sender.address()).unwrap();
    assert_eq!(account.sequence_number, 8);
    assert_eq!(executor.read_balance(sender.address()), 1_000_000 - GAS_USED_PER_TXN);
    assert!(!executor.module_exists(sender.address(), &vec!['M']));
    assert!(!executor.module_exists(other.address(), &vec!['M']));
}

#[test]
fn compile_reads_name_and_address() {
    let addr = Address::new(0x20C);
    let compiled =
        compile_module_with_address(&addr, "file_name", "  \n module Cov { }").unwrap();
    assert_eq!(compiled.address, addr);
    assert_eq!(compiled.name, vec!['C', 'o', 'v']);

    assert!(compile_module_with_address(&addr, "file_name", "script S {}").is_none());
    assert!(compile_module_with_address(&addr, "file_name", "module {}").is_none());
    assert!(compile_module_with_address(&addr, "file_name", "moduleM {}").is_none());
    assert!(compile_module_with_address(&addr, "file_name", "").is_none());
}

#[test]
fn status_equality_ignores_abort_location() {
    let a = VMStatus::MoveAbort(AbortLocation::Script, 7);
    let b = VMStatus::MoveAbort(AbortLocation::Module(Address::new(0x20D)), 7);
    let c = VMStatus::MoveAbort(AbortLocation::Script, 8);
    assert!(assert_status_eq(&a, &b));
    assert!(!assert_status_eq(&a, &c));
    assert!(!assert_status_eq(&a, &VMStatus::Executed));
    assert!(!assert_status_eq(
        &VMStatus::Error(StatusCode::DuplicateModuleName),
        &VMStatus::Executed,
    ));
    assert!(assert_status_eq(&VMStatus::Executed, &VMStatus::Executed));
}

#[test]
fn transaction_status_equality_is_disposition_aware() {
    let executed = VMStatus::Executed;
    assert!(transaction_status_eq(
        &TransactionStatus::Keep(executed),
        &TransactionStatus::Keep(executed),
    ));
    assert!(transaction_status_eq(
        &TransactionStatus::Discard(executed),
        &TransactionStatus::Discard(executed),
    ));
    assert!(!transaction_status_eq(
        &TransactionStatus::Keep(executed),
        &TransactionStatus::Discard(executed),
    ));
}

#[test]
fn disparity_helper_compares_both_halves() {
    let verified = Some(VMStatus::Error(StatusCode::SequenceNumberTooOld));
    let executed = TransactionStatus::Discard(VMStatus::Error(StatusCode::SequenceNumberTooOld));
    assert!(assert_prologue_disparity(
        &verified,
        &Some(VMStatus::Error(StatusCode::SequenceNumberTooOld)),
        &executed,
        &TransactionStatus::Discard(VMStatus::Error(StatusCode::SequenceNumberTooOld)),
    ));
    assert!(!assert_prologue_disparity(
        &verified,
        &None,
        &executed,
        &TransactionStatus::Discard(VMStatus::Error(StatusCode::SequenceNumberTooOld)),
    ));
}

// An account wrapped with state fields materializes under its own address.
#[test]
fn with_account_materializes_state() {
    let mut executor = FakeExecutor::from_genesis_with_options(VMPublishingOption::open());
    let account = Account::new(Address::new(0x20F));
    let data = AccountData::with_account(account, 555, 6);
    executor.add_account_data(&data);
    assert_eq!(executor.read_balance(data.address()), 555);
    assert_eq!(data.balance(), 555);
    assert_eq!(data.sequence_number(), 6);
    assert_eq!(
        executor.read_account_resource(data.address()).unwrap().sequence_number,
        6
    );
}

// Registering the same data again is harmless; the store keeps one copy.
#[test]
fn re_registering_identical_account_data() {
    let mut executor = FakeExecutor::from_genesis_with_options(VMPublishingOption::open());
    let sender = AccountData::new(Address::new(0x20E), 42, 4);
    executor.add_account_data(&sender);
    executor.add_account_data(&sender);
    assert_eq!(executor.read_balance(sender.address()), 42);
    assert_eq!(
        executor.read_account_resource(sender.address()).unwrap().sequence_number,
        4
    );
}
