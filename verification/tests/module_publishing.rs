use txn_harness::account::Account;
use txn_harness::account::AccountData;
use txn_harness::account::Address;
use txn_harness::account::TransactionPayload;
use txn_harness::assert_prologue_parity;
use txn_harness::compile::compile_module_with_address;
use txn_harness::config::VMPublishingOption;
use txn_harness::account::core_code_address;
use txn_harness::executor::FakeExecutor;
use txn_harness::status::StatusCode;
use txn_harness::status::StatusType;
use txn_harness::status::TransactionStatus;
use txn_harness::status::VMStatus;
use txn_harness::transaction_status_eq;

// A module with an address different from the sender's address should be rejected
#[test]
fn bad_module_address() {
    let mut executor = FakeExecutor::from_genesis_with_options(VMPublishingOption::open());

    // create a transaction trying to publish a new module.
    let account1 = AccountData::new(Address::new(0x101), 1_000_000, 10);
    let account2 = AccountData::new(Address::new(0x102), 1_000_000, 10);

    executor.add_account_data(&account1);
    executor.add_account_data(&account2);

    let program = String::from(
        "
        module M {

        }
        ",
    );

    // compile with account 1's address
    let compiled_module =
        compile_module_with_address(account1.address(), "file_name", &program).unwrap();
    // send with account 2's address
    let txn = account2.account().create_signed_txn_impl(
        *account2.address(),
        TransactionPayload::Module(compiled_module),
        10,
        100_000,
        1,
        String::from("LBR"),
    );

    // execute and fail because the addresses don't match
    let output = executor.execute_transaction(txn);
    let status = match output.status() {
        TransactionStatus::Keep(status) => {
            assert!(status.status_type() == StatusType::Verification);
            status
        }
        vm_status => panic!("Unexpected verification status: {:?}", vm_status),
    };
    assert!(status.status_code() == StatusCode::ModuleAddressDoesNotMatchSender);
}

// Publishing a module named M under the same address twice should be rejected
#[test]
fn duplicate_module() {
    let mut executor = FakeExecutor::from_genesis_with_options(VMPublishingOption::open());

    let sequence_number = 2;
    let account = AccountData::new(Address::new(0x103), 1_000_000, sequence_number);
    executor.add_account_data(&account);

    let program = String::from(
        "
        module M {

        }
        ",
    );
    let compiled_module =
        compile_module_with_address(account.address(), "file_name", &program).unwrap();

    let txn1 = account.account().create_signed_txn_impl(
        *account.address(),
        TransactionPayload::Module(compiled_module.clone()),
        sequence_number,
        100_000,
        1,
        String::from("LBR"),
    );

    let txn2 = account.account().create_signed_txn_impl(
        *account.address(),
        TransactionPayload::Module(compiled_module),
        sequence_number + 1,
        100_000,
        1,
        String::from("LBR"),
    );

    let output1 = executor.execute_transaction(txn1);
    executor.apply_write_set(output1.write_set());
    // first tx should succeed
    assert!(transaction_status_eq(
        output1.status(),
        &TransactionStatus::Keep(VMStatus::Executed),
    ));

    // second one should fail because it tries to re-publish a module named M
    let output2 = executor.execute_transaction(txn2);
    assert!(transaction_status_eq(
        output2.status(),
        &TransactionStatus::Keep(VMStatus::Error(StatusCode::DuplicateModuleName)),
    ));
}

#[test]
pub fn test_publishing_no_modules_non_whitelist_script() {
    // create a FakeExecutor with a genesis that forbids ordinary publishers
    let mut executor = FakeExecutor::from_genesis_with_options(VMPublishingOption::custom_scripts());

    // create a transaction trying to publish a new module.
    let sender = AccountData::new(Address::new(0x104), 1_000_000, 10);
    executor.add_account_data(&sender);

    let program = String::from(
        "
        module M {
        }
        ",
    );

    let random_script =
        compile_module_with_address(sender.address(), "file_name", &program).unwrap();
    let txn = sender.account().create_signed_txn_impl(
        *sender.address(),
        TransactionPayload::Module(random_script),
        10,
        100_000,
        1,
        String::from("LBR"),
    );

    let verified = executor.verify_transaction(txn.clone());
    let output = executor.execute_transaction(txn);
    assert!(assert_prologue_parity(
        &verified,
        output.status(),
        VMStatus::Error(StatusCode::InvalidModulePublisher),
    ));
}

#[test]
pub fn test_publishing_no_modules_non_whitelist_script_proper_sender() {
    // create a FakeExecutor with a genesis that forbids ordinary publishers
    let executor = FakeExecutor::from_genesis_with_options(VMPublishingOption::custom_scripts());

    // create a transaction trying to publish a new module.
    let sender = Account::new_libra_root();

    let program = String::from(
        "
        module M {
        }
        ",
    );

    let random_script =
        compile_module_with_address(&core_code_address(), "file_name", &program).unwrap();
    let txn = sender.create_signed_txn_impl(
        *sender.address(),
        TransactionPayload::Module(random_script),
        1,
        100_000,
        0,
        String::from("LBR"),
    );
    assert_eq!(executor.verify_transaction(txn.clone()), None);
    assert_eq!(
        executor.execute_transaction(txn).status(),
        &TransactionStatus::Keep(VMStatus::Executed)
    );
}

#[test]
pub fn test_publishing_no_modules_proper_sender() {
    // create a FakeExecutor with a whitelist genesis
    let executor = FakeExecutor::whitelist_genesis();

    // create a transaction trying to publish a new module.
    let sender = Account::new_libra_root();

    let program = String::from(
        "
        module M {
        }
        ",
    );

    let random_script =
        compile_module_with_address(&core_code_address(), "file_name", &program).unwrap();
    let txn = sender.create_signed_txn_impl(
        *sender.address(),
        TransactionPayload::Module(random_script),
        1,
        100_000,
        0,
        String::from("LBR"),
    );
    assert_eq!(executor.verify_transaction(txn.clone()), None);
    assert_eq!(
        executor.execute_transaction(txn).status(),
        &TransactionStatus::Keep(VMStatus::Executed)
    );
}

#[test]
pub fn test_publishing_no_modules_core_code_sender() {
    // create a FakeExecutor with a whitelist genesis
    let executor = FakeExecutor::whitelist_genesis();

    // create a transaction trying to publish a new module.
    let sender = Account::new_libra_root();

    let program = String::from(
        "
        module M {
        }
        ",
    );

    let random_script =
        compile_module_with_address(&core_code_address(), "file_name", &program).unwrap();
    let txn = sender.create_signed_txn_impl(
        core_code_address(),
        TransactionPayload::Module(random_script),
        0,
        100_000,
        0,
        String::from("LBR"),
    );

    // Doesn't work because the core code address is not the designated publisher
    let verified = executor.verify_transaction(txn.clone());
    let output = executor.execute_transaction(txn);
    assert!(assert_prologue_parity(
        &verified,
        output.status(),
        VMStatus::Error(StatusCode::InvalidModulePublisher),
    ));
}

#[test]
pub fn test_publishing_no_modules_invalid_sender() {
    // create a FakeExecutor with a whitelist genesis
    let mut executor = FakeExecutor::whitelist_genesis();

    // create a transaction trying to publish a new module.
    let sender = AccountData::new(Address::new(0x105), 1_000_000, 10);
    executor.add_account_data(&sender);

    let program = String::from(
        "
        module M {
        }
        ",
    );

    let random_script =
        compile_module_with_address(sender.address(), "file_name", &program).unwrap();
    let txn = sender.account().create_signed_txn_impl(
        *sender.address(),
        TransactionPayload::Module(random_script),
        10,
        100_000,
        0,
        String::from("LBR"),
    );
    let verified = executor.verify_transaction(txn.clone());
    let output = executor.execute_transaction(txn);
    assert!(assert_prologue_parity(
        &verified,
        output.status(),
        VMStatus::Error(StatusCode::InvalidModulePublisher),
    ));
}

#[test]
pub fn test_publishing_allow_modules() {
    // create a FakeExecutor with an open genesis
    let mut executor = FakeExecutor::from_genesis_with_options(VMPublishingOption::open());

    // create a transaction trying to publish a new module.
    let sender = AccountData::new(Address::new(0x106), 1_000_000, 10);
    executor.add_account_data(&sender);

    let program = String::from(
        "
        module M {
        }
        ",
    );

    let random_script =
        compile_module_with_address(sender.address(), "file_name", &program).unwrap();
    let txn = sender.account().create_signed_txn_impl(
        *sender.address(),
        TransactionPayload::Module(random_script),
        10,
        100_000,
        1,
        String::from("LBR"),
    );
    assert_eq!(executor.verify_transaction(txn.clone()), None);
    assert_eq!(
        executor.execute_transaction(txn).status(),
        &TransactionStatus::Keep(VMStatus::Executed)
    );
}
