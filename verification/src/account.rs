use vstd::prelude::*;

use crate::compile::CompiledModule;
use crate::compile::ModuleView;

verus! {

/// A fixed-width identifier for a ledger actor. Equality is structural.
#[derive(Clone, Copy, Debug, PartialEq, Eq, Structural)]
pub struct Address {
    pub value: u64,
}

impl Address {
    pub fn new(value: u64) -> (a: Address)
        ensures
            a == (Address { value }),
    {
        Address { value }
    }
}

/// The address reserved for the privileged root account that genesis creates.
pub open spec fn spec_root_address() -> Address {
    Address { value: 0xA550C18 }
}

#[verifier::when_used_as_spec(spec_root_address)]
pub fn root_address() -> (a: Address)
    ensures
        a == spec_root_address(),
{
    Address { value: 0xA550C18 }
}

/// The address under which the core framework code lives. Distinct from the
/// root account's own address.
pub open spec fn spec_core_code_address() -> Address {
    Address { value: 0x1 }
}

#[verifier::when_used_as_spec(spec_core_code_address)]
pub fn core_code_address() -> (a: Address)
    ensures
        a == spec_core_code_address(),
{
    Address { value: 0x1 }
}

/// A script program: code bytes plus its integer arguments. The code bytes
/// stand in for the compiled blob; policy whitelists match on them exactly.
#[derive(Clone, Debug)]
pub struct Script {
    pub code: Vec<u8>,
    pub args: Vec<u64>,
}

pub struct ScriptView {
    pub code: Seq<u8>,
    pub args: Seq<u64>,
}

impl View for Script {
    type V = ScriptView;

    open spec fn view(&self) -> ScriptView {
        ScriptView { code: self.code@, args: self.args@ }
    }
}

/// The program a transaction carries: publish a module, or run a script.
#[derive(Clone, Debug)]
pub enum TransactionPayload {
    Module(CompiledModule),
    Script(Script),
}

pub enum PayloadView {
    Module(ModuleView),
    Script(ScriptView),
}

impl View for TransactionPayload {
    type V = PayloadView;

    open spec fn view(&self) -> PayloadView {
        match self {
            TransactionPayload::Module(m) => PayloadView::Module(m@),
            TransactionPayload::Script(s) => PayloadView::Script(s@),
        }
    }
}

/// A transaction as submitted to the executor: immutable once constructed.
/// The `authenticator` records which account signed it; signing itself is an
/// external collaborator, modelled by stamping the signer's address.
#[derive(Clone, Debug)]
pub struct SignedTransaction {
    pub sender: Address,
    pub authenticator: Address,
    pub payload: TransactionPayload,
    pub sequence_number: u64,
    pub max_gas_amount: u64,
    pub gas_unit_price: u64,
    pub gas_currency_code: String,
}

pub struct TxnView {
    pub sender: Address,
    pub authenticator: Address,
    pub payload: PayloadView,
    pub sequence_number: u64,
    pub max_gas_amount: u64,
    pub gas_unit_price: u64,
    pub gas_currency_code: Seq<char>,
}

impl View for SignedTransaction {
    type V = TxnView;

    open spec fn view(&self) -> TxnView {
        TxnView {
            sender: self.sender,
            authenticator: self.authenticator,
            payload: self.payload@,
            sequence_number: self.sequence_number,
            max_gas_amount: self.max_gas_amount,
            gas_unit_price: self.gas_unit_price,
            gas_currency_code: self.gas_currency_code@,
        }
    }
}

/// A ledger actor able to sign transactions. Its only externally consumed
/// capability is turning a raw payload into a `SignedTransaction`.
#[derive(Clone, Debug)]
pub struct Account {
    pub addr: Address,
}

impl Account {
    pub open spec fn spec_address(self) -> Address {
        self.addr
    }

    pub fn new(addr: Address) -> (a: Account)
        ensures
            a.spec_address() == addr,
    {
        Account { addr }
    }

    /// The privileged account genesis materializes at the root address.
    pub fn new_libra_root() -> (a: Account)
        ensures
            a.spec_address() == spec_root_address(),
    {
        Account { addr: root_address() }
    }

    pub fn address(&self) -> (a: &Address)
        ensures
            *a == self.spec_address(),
    {
        &self.addr
    }

    /// Builds a signed transaction around `program`. The sender address is an
    /// explicit argument, independent of this account's own address, so a test
    /// can deliberately construct a mismatched-sender transaction.
    pub fn create_signed_txn_impl(
        &self,
        sender: Address,
        program: TransactionPayload,
        sequence_number: u64,
        max_gas_amount: u64,
        gas_unit_price: u64,
        gas_currency_code: String,
    ) -> (txn: SignedTransaction)
        ensures
            txn@ == (TxnView {
                sender,
                authenticator: self.spec_address(),
                payload: program@,
                sequence_number,
                max_gas_amount,
                gas_unit_price,
                gas_currency_code: gas_currency_code@,
            }),
    {
        SignedTransaction {
            sender,
            authenticator: self.addr,
            payload: program,
            sequence_number,
            max_gas_amount,
            gas_unit_price,
            gas_currency_code,
        }
    }
}

/// An account together with the ledger state a test wants materialized for
/// it: a coin balance and a sequence number. Once registered with an executor
/// the executor's store is the source of truth and this value goes stale.
#[derive(Clone, Debug)]
pub struct AccountData {
    pub account: Account,
    pub balance: u64,
    pub sequence_number: u64,
}

impl AccountData {
    pub open spec fn spec_address(self) -> Address {
        self.account.spec_address()
    }

    pub open spec fn spec_balance(self) -> u64 {
        self.balance
    }

    pub open spec fn spec_sequence_number(self) -> u64 {
        self.sequence_number
    }

    /// A fresh account at `addr` with the given balance and sequence number.
    pub fn new(addr: Address, balance: u64, sequence_number: u64) -> (d: AccountData)
        ensures
            d.spec_address() == addr,
            d.spec_balance() == balance,
            d.spec_sequence_number() == sequence_number,
    {
        AccountData { account: Account::new(addr), balance, sequence_number }
    }

    /// Wraps an existing account with state fields to materialize.
    pub fn with_account(account: Account, balance: u64, sequence_number: u64) -> (d: AccountData)
        ensures
            d.spec_address() == account.spec_address(),
            d.spec_balance() == balance,
            d.spec_sequence_number() == sequence_number,
    {
        AccountData { account, balance, sequence_number }
    }

    pub fn account(&self) -> (a: &Account)
        ensures
            a.spec_address() == self.spec_address(),
    {
        &self.account
    }

    pub fn address(&self) -> (a: &Address)
        ensures
            *a == self.spec_address(),
    {
        self.account.address()
    }

    pub fn balance(&self) -> (b: u64)
        ensures
            b == self.spec_balance(),
    {
        self.balance
    }

    pub fn sequence_number(&self) -> (n: u64)
        ensures
            n == self.spec_sequence_number(),
    {
        self.sequence_number
    }
}

} // verus!
