use vstd::prelude::*;

use crate::account::Address;

verus! {

/// Stable identifiers for the outcome of running or admitting a transaction.
/// Tests assert on the precise code, so every rejection path carries one of
/// these rather than a generic failure.
#[derive(Clone, Copy, Debug, PartialEq, Eq, Structural)]
pub enum StatusCode {
    Executed,
    SendingAccountDoesNotExist,
    InvalidAuthKey,
    SequenceNumberTooOld,
    SequenceNumberTooNew,
    SequenceNumberTooBig,
    InsufficientBalanceForTransactionFee,
    UnknownScript,
    InvalidModulePublisher,
    ModuleAddressDoesNotMatchSender,
    DuplicateModuleName,
    Aborted,
}

/// The broad phase a status code belongs to. Admission (prologue) failures are
/// validation errors and lead to a discarded transaction; verification errors
/// surface while the program itself is processed and are kept on chain.
#[derive(Clone, Copy, Debug, PartialEq, Eq, Structural)]
pub enum StatusType {
    Validation,
    Verification,
    Execution,
}

/// Where an on-chain abort was raised. This metadata is deliberately excluded
/// from status equality: abort locations are not yet stable enough to assert on.
#[derive(Clone, Copy, Debug, PartialEq, Eq, Structural)]
pub enum AbortLocation {
    Script,
    Module(Address),
}

/// The status the virtual machine reports for one transaction.
#[derive(Clone, Copy, Debug, PartialEq, Eq, Structural)]
pub enum VMStatus {
    Executed,
    Error(StatusCode),
    MoveAbort(AbortLocation, u64),
}

/// Whether a transaction made it into the ledger. A discarded transaction
/// changes no state; a kept one always records at least a sequence-number
/// bump and a gas debit, even when its program failed.
#[derive(Clone, Copy, Debug, PartialEq, Eq, Structural)]
pub enum TransactionStatus {
    Discard(VMStatus),
    Keep(VMStatus),
}

impl StatusCode {
    pub open spec fn spec_status_type(self) -> StatusType {
        match self {
            StatusCode::Executed => StatusType::Execution,
            StatusCode::SendingAccountDoesNotExist => StatusType::Validation,
            StatusCode::InvalidAuthKey => StatusType::Validation,
            StatusCode::SequenceNumberTooOld => StatusType::Validation,
            StatusCode::SequenceNumberTooNew => StatusType::Validation,
            StatusCode::SequenceNumberTooBig => StatusType::Validation,
            StatusCode::InsufficientBalanceForTransactionFee => StatusType::Validation,
            StatusCode::UnknownScript => StatusType::Validation,
            StatusCode::InvalidModulePublisher => StatusType::Validation,
            StatusCode::ModuleAddressDoesNotMatchSender => StatusType::Verification,
            StatusCode::DuplicateModuleName => StatusType::Verification,
            StatusCode::Aborted => StatusType::Execution,
        }
    }

    pub fn status_type(&self) -> (t: StatusType)
        ensures
            t == self.spec_status_type(),
    {
        match self {
            StatusCode::Executed => StatusType::Execution,
            StatusCode::SendingAccountDoesNotExist => StatusType::Validation,
            StatusCode::InvalidAuthKey => StatusType::Validation,
            StatusCode::SequenceNumberTooOld => StatusType::Validation,
            StatusCode::SequenceNumberTooNew => StatusType::Validation,
            StatusCode::SequenceNumberTooBig => StatusType::Validation,
            StatusCode::InsufficientBalanceForTransactionFee => StatusType::Validation,
            StatusCode::UnknownScript => StatusType::Validation,
            StatusCode::InvalidModulePublisher => StatusType::Validation,
            StatusCode::ModuleAddressDoesNotMatchSender => StatusType::Verification,
            StatusCode::DuplicateModuleName => StatusType::Verification,
            StatusCode::Aborted => StatusType::Execution,
        }
    }
}

impl VMStatus {
    pub open spec fn spec_status_code(self) -> StatusCode {
        match self {
            VMStatus::Executed => StatusCode::Executed,
            VMStatus::Error(code) => code,
            VMStatus::MoveAbort(_, _) => StatusCode::Aborted,
        }
    }

    pub open spec fn spec_move_abort_code(self) -> Option<u64> {
        match self {
            VMStatus::MoveAbort(_, code) => Some(code),
            _ => None,
        }
    }

    pub open spec fn spec_status_type(self) -> StatusType {
        self.spec_status_code().spec_status_type()
    }

    pub fn status_code(&self) -> (c: StatusCode)
        ensures
            c == self.spec_status_code(),
    {
        match self {
            VMStatus::Executed => StatusCode::Executed,
            VMStatus::Error(code) => *code,
            VMStatus::MoveAbort(_, _) => StatusCode::Aborted,
        }
    }

    pub fn move_abort_code(&self) -> (c: Option<u64>)
        ensures
            c == self.spec_move_abort_code(),
    {
        match self {
            VMStatus::MoveAbort(_, code) => Some(*code),
            _ => None,
        }
    }

    pub fn status_type(&self) -> (t: StatusType)
        ensures
            t == self.spec_status_type(),
    {
        self.status_code().status_type()
    }
}

/// Status equality as tests use it: status code and abort code must agree,
/// while abort-location metadata is ignored.
pub open spec fn status_eq(s1: VMStatus, s2: VMStatus) -> bool {
    &&& s1.spec_status_code() == s2.spec_status_code()
    &&& s1.spec_move_abort_code() == s2.spec_move_abort_code()
}

/// Transaction-status equality: the same on-chain disposition, with the inner
/// statuses compared by `status_eq`.
pub open spec fn txn_status_eq(t1: TransactionStatus, t2: TransactionStatus) -> bool {
    match (t1, t2) {
        (TransactionStatus::Discard(s1), TransactionStatus::Discard(s2)) => status_eq(s1, s2),
        (TransactionStatus::Keep(s1), TransactionStatus::Keep(s2)) => status_eq(s1, s2),
        _ => false,
    }
}

} // verus!
