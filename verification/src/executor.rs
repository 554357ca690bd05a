use vstd::prelude::*;

use vstd::arithmetic::mul::lemma_mul_inequality;
use vstd::arithmetic::mul::lemma_mul_upper_bound;
use vstd::pervasive::unreached;

use crate::account::spec_root_address;
use crate::account::root_address;
use crate::account::AccountData;
use crate::account::Address;
use crate::account::PayloadView;
use crate::account::SignedTransaction;
use crate::account::TransactionPayload;
use crate::account::TxnView;
use crate::config::bytes_views;
use crate::config::PolicyView;
use crate::config::VMPublishingOption;
use crate::data_store::copy_chars;
use crate::data_store::copy_module;
use crate::data_store::copy_policy;
use crate::data_store::AccessPath;
use crate::data_store::AccountResource;
use crate::data_store::BalanceResource;
use crate::data_store::FakeDataStore;
use crate::data_store::OpView;
use crate::data_store::PathTag;
use crate::data_store::PathView;
use crate::data_store::StateValue;
use crate::data_store::TagView;
use crate::data_store::ValueView;
use crate::data_store::WriteOp;
use crate::data_store::WriteSet;
use crate::data_store::apply_write_set_spec;
use crate::status::StatusCode;
use crate::status::StatusType;
use crate::status::TransactionStatus;
use crate::status::VMStatus;

verus! {

pub type StoreView = Map<PathView, ValueView>;

/// Flat gas amount the simulated execution meters for any kept transaction
/// (capped by the transaction's own maximum).
pub const GAS_USED_PER_TXN: u64 = 600;

/// Sequence number the root account ends genesis with.
pub const GENESIS_ROOT_SEQUENCE: u64 = 1;

/// Balance the root account ends genesis with.
pub const GENESIS_ROOT_BALANCE: u64 = 1_000_000_000;

pub open spec fn account_path(addr: Address) -> PathView {
    PathView { address: addr, tag: TagView::AccountRes }
}

pub open spec fn balance_path(addr: Address) -> PathView {
    PathView { address: addr, tag: TagView::BalanceRes }
}

pub open spec fn published_path(addr: Address, name: Seq<char>) -> PathView {
    PathView { address: addr, tag: TagView::Module(name) }
}

/// The publishing policy lives under the root address, like any other piece
/// of ledger state.
pub open spec fn config_path() -> PathView {
    PathView { address: spec_root_address(), tag: TagView::Config }
}

pub fn account_access_path(addr: Address) -> (p: AccessPath)
    ensures
        p@ == account_path(addr),
{
    AccessPath { address: addr, tag: PathTag::AccountRes }
}

pub fn balance_access_path(addr: Address) -> (p: AccessPath)
    ensures
        p@ == balance_path(addr),
{
    AccessPath { address: addr, tag: PathTag::BalanceRes }
}

pub fn module_access_path(addr: Address, name: Vec<char>) -> (p: AccessPath)
    ensures
        p@ == published_path(addr, name@),
{
    AccessPath { address: addr, tag: PathTag::Module(name) }
}

pub fn config_access_path() -> (p: AccessPath)
    ensures
        p@ == config_path(),
{
    AccessPath { address: root_address(), tag: PathTag::Config }
}

/// The account resource stored for `addr`, if the store holds one.
pub open spec fn stored_account(store: StoreView, addr: Address) -> Option<AccountResource> {
    if store.contains_key(account_path(addr)) {
        match store[account_path(addr)] {
            ValueView::Account(a) => Some(a),
            _ => None,
        }
    } else {
        None
    }
}

/// The coin balance stored for `addr`; an absent or malformed balance
/// resource reads as zero.
pub open spec fn stored_balance(store: StoreView, addr: Address) -> u64 {
    if store.contains_key(balance_path(addr)) {
        match store[balance_path(addr)] {
            ValueView::Balance(b) => b.coin,
            _ => 0,
        }
    } else {
        0
    }
}

/// The publishing policy the store holds. A store without a readable policy
/// behaves as fully locked: admission checks read ledger state, not a
/// harness-side default.
pub open spec fn stored_policy(store: StoreView) -> PolicyView {
    if store.contains_key(config_path()) {
        match store[config_path()] {
            ValueView::Config(p) => p,
            _ => PolicyView::Locked(Seq::empty()),
        }
    } else {
        PolicyView::Locked(Seq::empty())
    }
}

/// Whether a module is already published under `addr` with this name.
pub open spec fn module_published(store: StoreView, addr: Address, name: Seq<char>) -> bool {
    store.contains_key(published_path(addr, name))
}

/// Who may publish modules: anyone under the open policy, only the root
/// account otherwise.
pub open spec fn module_publishing_allowed(policy: PolicyView, sender: Address) -> bool {
    match policy {
        PolicyView::Open => true,
        PolicyView::CustomScripts => sender == spec_root_address(),
        PolicyView::Locked(_) => sender == spec_root_address(),
    }
}

/// Whether `code` appears verbatim in the whitelist.
pub open spec fn whitelisted(allowed: Seq<Seq<u8>>, code: Seq<u8>) -> bool {
    exists|i: int| 0 <= i < allowed.len() && allowed[i] == code
}

/// Which scripts may run: any under open or custom-scripts policies, only
/// whitelisted blobs under a locked policy.
pub open spec fn script_run_allowed(policy: PolicyView, code: Seq<u8>) -> bool {
    match policy {
        PolicyView::Open => true,
        PolicyView::CustomScripts => true,
        PolicyView::Locked(allowed) => whitelisted(allowed, code),
    }
}

/// The policy gate for the transaction's program, checked before the account
/// prologue so a forbidden publisher is rejected even when the sending
/// account does not exist.
pub open spec fn program_rejection(policy: PolicyView, txn: TxnView) -> Option<VMStatus> {
    match txn.payload {
        PayloadView::Module(_) => if !module_publishing_allowed(policy, txn.sender) {
            Some(VMStatus::Error(StatusCode::InvalidModulePublisher))
        } else {
            None
        },
        PayloadView::Script(s) => if !script_run_allowed(policy, s.code) {
            Some(VMStatus::Error(StatusCode::UnknownScript))
        } else {
            None
        },
    }
}

/// The account prologue: existence, signer authorization, replay protection,
/// and the ability to pay for gas.
pub open spec fn prologue_rejection(store: StoreView, txn: TxnView) -> Option<VMStatus> {
    match stored_account(store, txn.sender) {
        None => Some(VMStatus::Error(StatusCode::SendingAccountDoesNotExist)),
        Some(acct) => if txn.authenticator != acct.authentication_key {
            Some(VMStatus::Error(StatusCode::InvalidAuthKey))
        } else if txn.sequence_number < acct.sequence_number {
            Some(VMStatus::Error(StatusCode::SequenceNumberTooOld))
        } else if txn.sequence_number > acct.sequence_number {
            Some(VMStatus::Error(StatusCode::SequenceNumberTooNew))
        } else if txn.sequence_number == u64::MAX {
            Some(VMStatus::Error(StatusCode::SequenceNumberTooBig))
        } else if (stored_balance(store, txn.sender) as int) < txn.max_gas_amount as int
            * txn.gas_unit_price as int {
            Some(VMStatus::Error(StatusCode::InsufficientBalanceForTransactionFee))
        } else {
            None
        },
    }
}

/// The whole admission phase: `None` means the transaction would be accepted
/// against the given store; `Some` carries the exact rejection status.
pub open spec fn verify_spec(store: StoreView, txn: TxnView) -> Option<VMStatus> {
    match program_rejection(stored_policy(store), txn) {
        Some(s) => Some(s),
        None => prologue_rejection(store, txn),
    }
}

/// Gas units the simulated execution consumes for one kept transaction.
pub open spec fn spec_gas_used(max_gas_amount: u64) -> u64 {
    if max_gas_amount < GAS_USED_PER_TXN {
        max_gas_amount
    } else {
        GAS_USED_PER_TXN
    }
}

/// Gas charge in coin units.
pub open spec fn spec_gas_charge(txn: TxnView) -> int {
    spec_gas_used(txn.max_gas_amount) as int * txn.gas_unit_price as int
}

/// The epilogue every kept transaction records, even when its program
/// failed: the sender's sequence number advances and gas is debited.
pub open spec fn epilogue_ops(acct: AccountResource, balance: u64, txn: TxnView) -> Seq<
    (PathView, OpView),
> {
    seq![
        (
            account_path(txn.sender),
            OpView::Value(
                ValueView::Account(
                    AccountResource {
                        sequence_number: (acct.sequence_number + 1) as u64,
                        authentication_key: acct.authentication_key,
                    },
                ),
            ),
        ),
        (
            balance_path(txn.sender),
            OpView::Value(
                ValueView::Balance(
                    BalanceResource { coin: (balance - spec_gas_charge(txn)) as u64 },
                ),
            ),
        ),
    ]
}

pub struct OutputView {
    pub status: TransactionStatus,
    pub write_set: Seq<(PathView, OpView)>,
}

/// How a rejection surfaces when the full pipeline runs: validation-phase
/// statuses discard the transaction, anything later is kept on chain.
pub open spec fn classify_rejection(s: VMStatus) -> TransactionStatus {
    if s.spec_status_type() == StatusType::Validation {
        TransactionStatus::Discard(s)
    } else {
        TransactionStatus::Keep(s)
    }
}

/// The status and write-set full execution produces against `store`.
pub open spec fn execute_spec(store: StoreView, txn: TxnView) -> OutputView {
    match verify_spec(store, txn) {
        Some(s) => OutputView { status: classify_rejection(s), write_set: Seq::empty() },
        None => {
            let acct = match stored_account(store, txn.sender) {
                Some(a) => a,
                None => AccountResource { sequence_number: 0, authentication_key: txn.sender },
            };
            let balance = stored_balance(store, txn.sender);
            let epilogue = epilogue_ops(acct, balance, txn);
            match txn.payload {
                PayloadView::Module(m) => if m.address != txn.sender && txn.sender
                    != spec_root_address() {
                    OutputView {
                        status: TransactionStatus::Keep(
                            VMStatus::Error(StatusCode::ModuleAddressDoesNotMatchSender),
                        ),
                        write_set: epilogue,
                    }
                } else if module_published(store, m.address, m.name) {
                    OutputView {
                        status: TransactionStatus::Keep(
                            VMStatus::Error(StatusCode::DuplicateModuleName),
                        ),
                        write_set: epilogue,
                    }
                } else {
                    OutputView {
                        status: TransactionStatus::Keep(VMStatus::Executed),
                        write_set: seq![
                            (
                                published_path(m.address, m.name),
                                OpView::Value(ValueView::Module(m)),
                            ),
                        ] + epilogue,
                    }
                },
                PayloadView::Script(_) => OutputView {
                    status: TransactionStatus::Keep(VMStatus::Executed),
                    write_set: epilogue,
                },
            }
        },
    }
}

/// What one call of `execute_transaction` hands back: the status, and the
/// write-set the caller may or may not apply.
pub struct TransactionOutput {
    pub status: TransactionStatus,
    pub write_set: WriteSet,
}

impl View for TransactionOutput {
    type V = OutputView;

    open spec fn view(&self) -> OutputView {
        OutputView { status: self.status, write_set: self.write_set@ }
    }
}

impl TransactionOutput {
    pub fn status(&self) -> (s: &TransactionStatus)
        ensures
            *s == self@.status,
    {
        &self.status
    }

    pub fn write_set(&self) -> (ws: &WriteSet)
        ensures
            ws@ == self@.write_set,
    {
        &self.write_set
    }
}

/// The account resource `add_account_data` materializes.
pub open spec fn account_resource_of(d: AccountData) -> AccountResource {
    AccountResource {
        sequence_number: d.spec_sequence_number(),
        authentication_key: d.spec_address(),
    }
}

/// Registering account data is a harness-usage error when the store already
/// holds conflicting state for the same address.
pub open spec fn can_register(store: StoreView, d: AccountData) -> bool {
    &&& store.contains_key(account_path(d.spec_address())) ==> store[account_path(
        d.spec_address(),
    )] == ValueView::Account(account_resource_of(d))
    &&& store.contains_key(balance_path(d.spec_address())) ==> store[balance_path(
        d.spec_address(),
    )] == ValueView::Balance(BalanceResource { coin: d.spec_balance() })
}

/// The store after account data is materialized.
pub open spec fn with_account_data(store: StoreView, d: AccountData) -> StoreView {
    store.insert(
        account_path(d.spec_address()),
        ValueView::Account(account_resource_of(d)),
    ).insert(balance_path(d.spec_address()), ValueView::Balance(BalanceResource { coin: d.spec_balance() }))
}

/// The store a fresh genesis produces: the publishing policy plus the funded
/// root account.
pub open spec fn genesis_store(policy: PolicyView) -> StoreView {
    Map::empty().insert(config_path(), ValueView::Config(policy)).insert(
        account_path(spec_root_address()),
        ValueView::Account(
            AccountResource {
                sequence_number: GENESIS_ROOT_SEQUENCE,
                authentication_key: spec_root_address(),
            },
        ),
    ).insert(
        balance_path(spec_root_address()),
        ValueView::Balance(BalanceResource { coin: GENESIS_ROOT_BALANCE }),
    )
}

/// The seam between a test and the simulated verification/execution pipeline.
/// Each executor exclusively owns one data store for its whole lifetime.
pub struct FakeExecutor {
    pub data_store: FakeDataStore,
}

impl View for FakeExecutor {
    type V = StoreView;

    open spec fn view(&self) -> StoreView {
        self.data_store@
    }
}

fn bytes_eq(a: &Vec<u8>, b: &Vec<u8>) -> (r: bool)
    ensures
        r == (a@ == b@),
{
    let n = a.len();
    if n != b.len() {
        return false;
    }
    let mut i: usize = 0;
    while i < n
        invariant
            i <= n,
            n == a.len() == b.len(),
            forall|j: int| 0 <= j < i ==> a@[j] == b@[j],
        decreases n - i,
    {
        if a[i] != b[i] {
            return false;
        }
        i = i + 1;
    }
    proof {
        assert(a@ =~= b@);
    }
    true
}

fn whitelist_contains(allowed: &Vec<Vec<u8>>, code: &Vec<u8>) -> (r: bool)
    ensures
        r == script_run_allowed(PolicyView::Locked(bytes_views(allowed@)), code@),
{
    let n = allowed.len();
    let mut i: usize = 0;
    proof {
        assert(bytes_views(allowed@).len() == allowed@.len());
    }
    while i < n
        invariant
            i <= n,
            n == allowed.len(),
            forall|j: int| 0 <= j < i ==> #[trigger] bytes_views(allowed@)[j] != code@,
        decreases n - i,
    {
        if bytes_eq(&allowed[i], code) {
            proof {
                let vs = bytes_views(allowed@);
                assert(vs.len() == allowed@.len());
                assert(vs[i as int] == allowed@[i as int]@);
                assert(0 <= (i as int) && (i as int) < vs.len() && vs[i as int] == code@);
                assert(whitelisted(vs, code@));
            }
            return true;
        }
        proof {
            assert(bytes_views(allowed@)[i as int] == allowed@[i as int]@);
        }
        i = i + 1;
    }
    false
}

impl FakeExecutor {
    /// Builds a fresh data store seeded with the minimal on-chain state needed
    /// to run transactions, parameterized by the publishing policy. The policy
    /// is materialized into the store so admission reads it as ledger state.
    pub fn from_genesis_with_options(publishing_option: VMPublishingOption) -> (e: FakeExecutor)
        ensures
            e@ == genesis_store(publishing_option@),
    {
        let mut store = FakeDataStore::new();
        store.set(config_access_path(), StateValue::Config(publishing_option));
        store.set(
            account_access_path(root_address()),
            StateValue::Account(
                AccountResource {
                    sequence_number: GENESIS_ROOT_SEQUENCE,
                    authentication_key: root_address(),
                },
            ),
        );
        store.set(
            balance_access_path(root_address()),
            StateValue::Balance(BalanceResource { coin: GENESIS_ROOT_BALANCE }),
        );
        FakeExecutor { data_store: store }
    }

    /// Genesis under the locked policy with an empty script whitelist: only
    /// the root account may publish, and no script runs.
    pub fn whitelist_genesis() -> (e: FakeExecutor)
        ensures
            e@ == genesis_store(PolicyView::Locked(Seq::empty())),
    {
        let empty: Vec<Vec<u8>> = Vec::new();
        proof {
            assert(bytes_views(empty@) =~= Seq::<Seq<u8>>::empty());
        }
        Self::from_genesis_with_options(VMPublishingOption::locked(empty))
    }

    /// Serializes the account data's balance and sequence number into the
    /// store at the paths admission reads for that address. Registering the
    /// same address twice with conflicting state is a harness-usage error,
    /// excluded up front rather than surfaced as a recoverable status.
    pub fn add_account_data(&mut self, account_data: &AccountData)
        requires
            can_register(old(self)@, *account_data),
        ensures
            final(self)@ == with_account_data(old(self)@, *account_data),
    {
        let addr = *account_data.address();
        self.data_store.set(
            account_access_path(addr),
            StateValue::Account(
                AccountResource {
                    sequence_number: account_data.sequence_number(),
                    authentication_key: addr,
                },
            ),
        );
        self.data_store.set(
            balance_access_path(addr),
            StateValue::Balance(BalanceResource { coin: account_data.balance() }),
        );
    }

    /// The account resource currently stored for `addr`.
    pub fn read_account_resource(&self, addr: &Address) -> (r: Option<AccountResource>)
        ensures
            r == stored_account(self@, *addr),
    {
        let path = account_access_path(*addr);
        match self.data_store.read(&path) {
            Some(v) => match v {
                StateValue::Account(a) => Some(*a),
                StateValue::Balance(_) => None,
                StateValue::Module(_) => None,
                StateValue::Config(_) => None,
            },
            None => None,
        }
    }

    /// The coin balance currently stored for `addr`; zero when absent.
    pub fn read_balance(&self, addr: &Address) -> (r: u64)
        ensures
            r == stored_balance(self@, *addr),
    {
        let path = balance_access_path(*addr);
        match self.data_store.read(&path) {
            Some(v) => match v {
                StateValue::Balance(b) => b.coin,
                StateValue::Account(_) => 0,
                StateValue::Module(_) => 0,
                StateValue::Config(_) => 0,
            },
            None => 0,
        }
    }

    /// Whether a module with this name is published under `addr`.
    pub fn module_exists(&self, addr: &Address, name: &Vec<char>) -> (r: bool)
        ensures
            r == module_published(self@, *addr, name@),
    {
        let path = module_access_path(*addr, copy_chars(name));
        match self.data_store.read(&path) {
            Some(_) => true,
            None => false,
        }
    }

    /// The publishing policy the store holds, read back as a value.
    pub fn read_policy(&self) -> (p: VMPublishingOption)
        ensures
            p@ == stored_policy(self@),
    {
        let path = config_access_path();
        match self.data_store.read(&path) {
            Some(v) => match v {
                StateValue::Config(p) => copy_policy(p),
                StateValue::Account(_) => Self::locked_fallback(),
                StateValue::Balance(_) => Self::locked_fallback(),
                StateValue::Module(_) => Self::locked_fallback(),
            },
            None => Self::locked_fallback(),
        }
    }

    fn locked_fallback() -> (p: VMPublishingOption)
        ensures
            p@ == PolicyView::Locked(Seq::empty()),
    {
        let empty: Vec<Vec<u8>> = Vec::new();
        proof {
            assert(bytes_views(empty@) =~= Seq::<Seq<u8>>::empty());
        }
        VMPublishingOption::Locked(empty)
    }

    fn verify_ref(&self, txn: &SignedTransaction) -> (r: Option<VMStatus>)
        ensures
            r == verify_spec(self@, txn@),
    {
        match &txn.payload {
            TransactionPayload::Module(_) => {
                let policy = self.read_policy();
                let allowed = match &policy {
                    VMPublishingOption::Open => true,
                    VMPublishingOption::CustomScripts => txn.sender == root_address(),
                    VMPublishingOption::Locked(_) => txn.sender == root_address(),
                };
                if !allowed {
                    return Some(VMStatus::Error(StatusCode::InvalidModulePublisher));
                }
            },
            TransactionPayload::Script(script) => {
                let policy = self.read_policy();
                let run_ok = match &policy {
                    VMPublishingOption::Open => true,
                    VMPublishingOption::CustomScripts => true,
                    VMPublishingOption::Locked(allowed) => whitelist_contains(
                        allowed,
                        &script.code,
                    ),
                };
                if !run_ok {
                    return Some(VMStatus::Error(StatusCode::UnknownScript));
                }
            },
        }
        let acct = match self.read_account_resource(&txn.sender) {
            Some(a) => a,
            None => {
                return Some(VMStatus::Error(StatusCode::SendingAccountDoesNotExist));
            },
        };
        if txn.authenticator != acct.authentication_key {
            return Some(VMStatus::Error(StatusCode::InvalidAuthKey));
        }
        if txn.sequence_number < acct.sequence_number {
            return Some(VMStatus::Error(StatusCode::SequenceNumberTooOld));
        }
        if txn.sequence_number > acct.sequence_number {
            return Some(VMStatus::Error(StatusCode::SequenceNumberTooNew));
        }
        if txn.sequence_number == u64::MAX {
            return Some(VMStatus::Error(StatusCode::SequenceNumberTooBig));
        }
        let balance = self.read_balance(&txn.sender);
        proof {
            lemma_mul_upper_bound(
                txn.max_gas_amount as int,
                u64::MAX as int,
                txn.gas_unit_price as int,
                u64::MAX as int,
            );
        }
        if (balance as u128) < (txn.max_gas_amount as u128) * (txn.gas_unit_price as u128) {
            return Some(VMStatus::Error(StatusCode::InsufficientBalanceForTransactionFee));
        }
        None
    }

    /// Runs only the admission phase against current state: `None` when the
    /// transaction would be admitted, otherwise the exact rejection status.
    /// Never mutates the store.
    pub fn verify_transaction(&self, txn: SignedTransaction) -> (r: Option<VMStatus>)
        ensures
            r == verify_spec(self@, txn@),
    {
        self.verify_ref(&txn)
    }

    /// Runs full admission plus execution. An inadmissible transaction comes
    /// back with an empty write-set, discarded or kept per its status type; an
    /// admitted one is always kept, recording at least the sequence-number
    /// bump and gas debit. The write-set is returned, not applied: the caller
    /// decides.
    pub fn execute_transaction(&self, txn: SignedTransaction) -> (output: TransactionOutput)
        ensures
            output@ == execute_spec(self@, txn@),
    {
        match self.verify_ref(&txn) {
            Some(status) => {
                let kept = if status.status_type() == StatusType::Validation {
                    TransactionStatus::Discard(status)
                } else {
                    TransactionStatus::Keep(status)
                };
                let ws = WriteSet::new();
                TransactionOutput { status: kept, write_set: ws }
            },
            None => {
                let acct = match self.read_account_resource(&txn.sender) {
                    Some(a) => a,
                    None => unreached(),
                };
                let balance = self.read_balance(&txn.sender);
                let gas_used = if txn.max_gas_amount < GAS_USED_PER_TXN {
                    txn.max_gas_amount
                } else {
                    GAS_USED_PER_TXN
                };
                proof {
                    lemma_mul_inequality(
                        gas_used as int,
                        txn.max_gas_amount as int,
                        txn.gas_unit_price as int,
                    );
                }
                let charge = gas_used * txn.gas_unit_price;
                let new_balance = balance - charge;
                let new_account = AccountResource {
                    sequence_number: acct.sequence_number + 1,
                    authentication_key: acct.authentication_key,
                };
                let ghost epilogue = epilogue_ops(acct, balance, txn@);
                let mut ws = WriteSet::new();
                let status: TransactionStatus = match &txn.payload {
                    TransactionPayload::Module(m) => {
                        if m.address != txn.sender && txn.sender != root_address() {
                            TransactionStatus::Keep(
                                VMStatus::Error(StatusCode::ModuleAddressDoesNotMatchSender),
                            )
                        } else {
                            let module_path_owned = module_access_path(
                                m.address,
                                copy_chars(&m.name),
                            );
                            let already = match self.data_store.read(&module_path_owned) {
                                Some(_) => true,
                                None => false,
                            };
                            if already {
                                TransactionStatus::Keep(
                                    VMStatus::Error(StatusCode::DuplicateModuleName),
                                )
                            } else {
                                ws.push(
                                    module_path_owned,
                                    WriteOp::Value(StateValue::Module(copy_module(m))),
                                );
                                TransactionStatus::Keep(VMStatus::Executed)
                            }
                        }
                    },
                    TransactionPayload::Script(_) => TransactionStatus::Keep(VMStatus::Executed),
                };
                let ghost prefix = ws@;
                ws.push(
                    account_access_path(txn.sender),
                    WriteOp::Value(StateValue::Account(new_account)),
                );
                ws.push(
                    balance_access_path(txn.sender),
                    WriteOp::Value(StateValue::Balance(BalanceResource { coin: new_balance })),
                );
                proof {
                    assert(ws@ =~= prefix + epilogue);
                    assert(execute_spec(self@, txn@).write_set =~= prefix + epilogue);
                }
                TransactionOutput { status, write_set: ws }
            },
        }
    }

    /// Applies a write-set to the store, each operation in order. Used by
    /// tests to chain transactions.
    pub fn apply_write_set(&mut self, write_set: &WriteSet)
        ensures
            final(self)@ == apply_write_set_spec(old(self)@, write_set@),
    {
        self.data_store.apply_write_set(write_set);
    }
}

} // verus!
