//! A deterministic, in-memory transaction-execution harness: construct a
//! genesis state, materialize accounts, build signed transactions, run them
//! through a simulated verification/execution pipeline, and assert on the
//! resulting status and state mutations.

use vstd::prelude::*;

pub mod account;
pub mod compile;
pub mod config;
pub mod data_store;
pub mod executor;
pub mod laws;
pub mod status;

use crate::status::status_eq;
use crate::status::txn_status_eq;
use crate::status::TransactionStatus;
use crate::status::VMStatus;

verus! {

/// Status equality for tests: status codes and abort codes must agree, while
/// abort-location metadata is ignored.
pub fn assert_status_eq(s1: &VMStatus, s2: &VMStatus) -> (r: bool)
    ensures
        r == status_eq(*s1, *s2),
{
    let code_eq = s1.status_code() == s2.status_code();
    let abort_eq = match (s1.move_abort_code(), s2.move_abort_code()) {
        (Some(a1), Some(a2)) => a1 == a2,
        (None, None) => true,
        _ => false,
    };
    code_eq && abort_eq
}

/// Transaction-status equality for tests: the same on-chain disposition
/// (both discarded or both kept) with matching inner statuses. A discard
/// against a keep is plainly unequal.
pub fn transaction_status_eq(t1: &TransactionStatus, t2: &TransactionStatus) -> (r: bool)
    ensures
        r == txn_status_eq(*t1, *t2),
{
    match (t1, t2) {
        (TransactionStatus::Discard(s1), TransactionStatus::Discard(s2)) => assert_status_eq(
            s1,
            s2,
        ),
        (TransactionStatus::Keep(s1), TransactionStatus::Keep(s2)) => assert_status_eq(s1, s2),
        _ => false,
    }
}

/// What the prologue-parity assertion encodes: verification rejected the
/// transaction with exactly `expected`, and execution discarded it with the
/// same status.
pub open spec fn spec_prologue_parity(
    verified: Option<VMStatus>,
    executed: TransactionStatus,
    expected: VMStatus,
) -> bool {
    &&& verified matches Some(s) && status_eq(s, expected)
    &&& txn_status_eq(executed, TransactionStatus::Discard(expected))
}

/// Checks that an inadmissible transaction is caught identically by both code
/// paths: verification reports `expected`, and execution discards with it.
pub fn assert_prologue_parity(
    verified: &Option<VMStatus>,
    executed: &TransactionStatus,
    expected: VMStatus,
) -> (r: bool)
    ensures
        r == spec_prologue_parity(*verified, *executed, expected),
{
    match verified {
        Some(s) => assert_status_eq(s, &expected) && transaction_status_eq(
            executed,
            &TransactionStatus::Discard(expected),
        ),
        None => false,
    }
}

/// Checks the two halves separately where verification and execution are
/// expected to diverge: the verification result equals its expected value and
/// the execution status matches its own.
pub fn assert_prologue_disparity(
    verified: &Option<VMStatus>,
    expected_verified: &Option<VMStatus>,
    executed: &TransactionStatus,
    expected_executed: &TransactionStatus,
) -> (r: bool)
    ensures
        r == ({
            &&& *verified == *expected_verified
            &&& txn_status_eq(*executed, *expected_executed)
        }),
{
    let verified_eq = match (verified, expected_verified) {
        (Some(s1), Some(s2)) => *s1 == *s2,
        (None, None) => true,
        _ => false,
    };
    verified_eq && transaction_status_eq(executed, expected_executed)
}

} // verus!
