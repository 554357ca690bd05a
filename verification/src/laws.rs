use vstd::prelude::*;

use crate::account::spec_root_address;
use crate::account::PayloadView;
use crate::account::TxnView;
use crate::compile::ModuleView;
use crate::data_store::apply_op_spec;
use crate::data_store::apply_ops_from;
use crate::data_store::apply_write_set_spec;
use crate::data_store::OpView;
use crate::data_store::PathView;
use crate::data_store::TagView;
use crate::data_store::ValueView;
use crate::executor::account_path;
use crate::executor::balance_path;
use crate::executor::execute_spec;
use crate::executor::module_published;
use crate::executor::published_path;
use crate::executor::stored_account;
use crate::executor::stored_balance;
use crate::executor::stored_policy;
use crate::executor::verify_spec;
use crate::executor::StoreView;
use crate::config::PolicyView;
use crate::status::StatusCode;
use crate::status::StatusType;
use crate::status::TransactionStatus;
use crate::status::VMStatus;

verus! {

/// The module a payload publishes. Meaningful only when the payload is a
/// module publish.
pub open spec fn module_of(p: PayloadView) -> ModuleView {
    match p {
        PayloadView::Module(m) => m,
        PayloadView::Script(_) => vstd::pervasive::arbitrary(),
    }
}

pub proof fn lemma_apply_step(
    m: Map<PathView, ValueView>,
    ops: Seq<(PathView, OpView)>,
    i: int,
)
    requires
        0 <= i < ops.len(),
    ensures
        apply_ops_from(m, ops, i) == apply_ops_from(apply_op_spec(m, ops[i]), ops, i + 1),
{
}

/// Every admission rejection is a validation-type error status: the admission
/// phase never keeps a transaction and never reports success.
pub proof fn lemma_rejection_is_validation(store: StoreView, txn: TxnView)
    requires
        verify_spec(store, txn) is Some,
    ensures
        verify_spec(store, txn).unwrap() is Error,
        verify_spec(store, txn).unwrap().spec_status_type() == StatusType::Validation,
{
    match txn.payload {
        PayloadView::Module(_) => {
        },
        PayloadView::Script(_) => {
        },
    }
}

/// Verify/execute parity: a transaction the admission phase rejects with
/// status `s` is discarded by full execution with exactly `s`, and its
/// write-set is empty.
pub proof fn lemma_verify_execute_parity(store: StoreView, txn: TxnView)
    requires
        verify_spec(store, txn) is Some,
    ensures
        execute_spec(store, txn).status == TransactionStatus::Discard(
            verify_spec(store, txn).unwrap(),
        ),
        execute_spec(store, txn).write_set == Seq::<(PathView, OpView)>::empty(),
{
    lemma_rejection_is_validation(store, txn);
}

/// A module whose self-declared address differs from the signing sender's is
/// rejected with the address-mismatch status whenever execution reaches the
/// program, whatever the publishing policy; no module state is written. The
/// one sender exempt from the address check is the root account.
pub proof fn lemma_address_mismatch_rejected(store: StoreView, txn: TxnView)
    requires
        verify_spec(store, txn) is None,
        txn.payload is Module,
        module_of(txn.payload).address != txn.sender,
        txn.sender != spec_root_address(),
    ensures
        execute_spec(store, txn).status == TransactionStatus::Keep(
            VMStatus::Error(StatusCode::ModuleAddressDoesNotMatchSender),
        ),
        forall|i: int|
            0 <= i < execute_spec(store, txn).write_set.len() ==> !(execute_spec(
                store,
                txn,
            ).write_set[i].0.tag is Module),
{
    let ws = execute_spec(store, txn).write_set;
    assert(ws.len() == 2);
    assert(ws[0].0.tag is AccountRes);
    assert(ws[1].0.tag is BalanceRes);
}

/// Under the custom-scripts policy a module publish from any sender other
/// than the root account is rejected with the invalid-publisher status, by
/// admission and execution alike, with an empty write-set.
pub proof fn lemma_custom_scripts_forbids_publishing(store: StoreView, txn: TxnView)
    requires
        stored_policy(store) is CustomScripts,
        txn.payload is Module,
        txn.sender != spec_root_address(),
    ensures
        verify_spec(store, txn) == Some(VMStatus::Error(StatusCode::InvalidModulePublisher)),
        execute_spec(store, txn).status == TransactionStatus::Discard(
            VMStatus::Error(StatusCode::InvalidModulePublisher),
        ),
        execute_spec(store, txn).write_set == Seq::<(PathView, OpView)>::empty(),
{
}

/// An admitted module publish whose module is not yet present executes
/// successfully: the status is kept as executed, the write-set is non-empty,
/// and applying it stores exactly the published module under its declared
/// address and name.
pub proof fn lemma_admitted_publish_executes(store: StoreView, txn: TxnView)
    requires
        verify_spec(store, txn) is None,
        txn.payload is Module,
        module_of(txn.payload).address == txn.sender || txn.sender == spec_root_address(),
        !module_published(store, module_of(txn.payload).address, module_of(txn.payload).name),
    ensures
        execute_spec(store, txn).status == TransactionStatus::Keep(VMStatus::Executed),
        execute_spec(store, txn).write_set.len() == 3,
        apply_write_set_spec(store, execute_spec(store, txn).write_set).contains_key(
            published_path(module_of(txn.payload).address, module_of(txn.payload).name),
        ),
        apply_write_set_spec(store, execute_spec(store, txn).write_set)[published_path(
            module_of(txn.payload).address,
            module_of(txn.payload).name,
        )] == ValueView::Module(module_of(txn.payload)),
{
    let m = module_of(txn.payload);
    let ws = execute_spec(store, txn).write_set;
    assert(ws.len() == 3);
    assert(ws[0] == (published_path(m.address, m.name), OpView::Value(ValueView::Module(m))));
    assert(ws[1].0 == account_path(txn.sender));
    assert(ws[2].0 == balance_path(txn.sender));
    lemma_apply_step(store, ws, 0);
    let s1 = apply_op_spec(store, ws[0]);
    lemma_apply_step(s1, ws, 1);
    let s2 = apply_op_spec(s1, ws[1]);
    lemma_apply_step(s2, ws, 2);
    let s3 = apply_op_spec(s2, ws[2]);
    assert(apply_ops_from(s3, ws, 3) == s3);
    assert(s3[published_path(m.address, m.name)] == ValueView::Module(m));
}

/// Publishing the same module name at the same address twice fails: when a
/// first publish succeeded and its write-set was applied, a second admitted
/// publish of the same name is kept with the duplicate-module status, and the
/// state the first publish wrote is untouched even after the second
/// transaction's write-set is applied.
pub proof fn lemma_duplicate_module_rejected(store: StoreView, txn1: TxnView, txn2: TxnView)
    requires
        txn1.payload is Module,
        txn2.payload is Module,
        module_of(txn2.payload).name == module_of(txn1.payload).name,
        module_of(txn2.payload).address == module_of(txn1.payload).address,
        txn2.sender == txn1.sender,
        execute_spec(store, txn1).status == TransactionStatus::Keep(VMStatus::Executed),
        verify_spec(
            apply_write_set_spec(store, execute_spec(store, txn1).write_set),
            txn2,
        ) is None,
    ensures
        execute_spec(
            apply_write_set_spec(store, execute_spec(store, txn1).write_set),
            txn2,
        ).status == TransactionStatus::Keep(VMStatus::Error(StatusCode::DuplicateModuleName)),
        ({
            let store2 = apply_write_set_spec(store, execute_spec(store, txn1).write_set);
            let store3 = apply_write_set_spec(store2, execute_spec(store2, txn2).write_set);
            let key = published_path(module_of(txn1.payload).address, module_of(txn1.payload).name);
            store3.contains_key(key) && store3[key] == ValueView::Module(module_of(txn1.payload))
        }),
{
    let m1 = module_of(txn1.payload);
    if verify_spec(store, txn1) is Some {
        lemma_rejection_is_validation(store, txn1);
        assert(false);
    }
    assert(!(module_of(txn1.payload).address != txn1.sender && txn1.sender
        != spec_root_address()));
    assert(!module_published(store, m1.address, m1.name));
    lemma_admitted_publish_executes(store, txn1);
    let store2 = apply_write_set_spec(store, execute_spec(store, txn1).write_set);
    let key = published_path(m1.address, m1.name);
    assert(store2.contains_key(key));
    assert(module_published(store2, module_of(txn2.payload).address, module_of(txn2.payload).name));
    let out2 = execute_spec(store2, txn2);
    assert(out2.status == TransactionStatus::Keep(VMStatus::Error(StatusCode::DuplicateModuleName)));
    let ws2 = out2.write_set;
    assert(ws2.len() == 2);
    assert(ws2[0].0 == account_path(txn2.sender));
    assert(ws2[1].0 == balance_path(txn2.sender));
    lemma_apply_step(store2, ws2, 0);
    let s1 = apply_op_spec(store2, ws2[0]);
    lemma_apply_step(s1, ws2, 1);
    let s2 = apply_op_spec(s1, ws2[1]);
    assert(apply_ops_from(s2, ws2, 2) == s2);
    assert(s2.contains_key(key) && s2[key] == ValueView::Module(m1));
}

/// Under the open policy, an admitted module publish from a funded account
/// whose module matches the sender and is not yet present succeeds with a
/// kept executed status and a non-empty write-set.
pub proof fn lemma_open_policy_publish_succeeds(store: StoreView, txn: TxnView)
    requires
        stored_policy(store) is Open,
        txn.payload is Module,
        module_of(txn.payload).address == txn.sender,
        !module_published(store, txn.sender, module_of(txn.payload).name),
        stored_account(store, txn.sender) is Some,
        txn.authenticator == stored_account(store, txn.sender).unwrap().authentication_key,
        txn.sequence_number == stored_account(store, txn.sender).unwrap().sequence_number,
        txn.sequence_number != u64::MAX,
        stored_balance(store, txn.sender) as int >= txn.max_gas_amount as int
            * txn.gas_unit_price as int,
    ensures
        verify_spec(store, txn) is None,
        execute_spec(store, txn).status == TransactionStatus::Keep(VMStatus::Executed),
        execute_spec(store, txn).write_set.len() > 0,
{
    assert(verify_spec(store, txn) is None);
    lemma_admitted_publish_executes(store, txn);
}

} // verus!
