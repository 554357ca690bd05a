use vstd::prelude::*;

use crate::account::Address;
use crate::compile::CompiledModule;
use crate::compile::ModuleView;
use crate::config::bytes_views;
use crate::config::PolicyView;
use crate::config::VMPublishingOption;

verus! {

/// Which piece of an address's state a path names.
#[derive(Clone, Debug)]
pub enum PathTag {
    AccountRes,
    BalanceRes,
    Module(Vec<char>),
    Config,
}

pub enum TagView {
    AccountRes,
    BalanceRes,
    Module(Seq<char>),
    Config,
}

impl View for PathTag {
    type V = TagView;

    open spec fn view(&self) -> TagView {
        match self {
            PathTag::AccountRes => TagView::AccountRes,
            PathTag::BalanceRes => TagView::BalanceRes,
            PathTag::Module(name) => TagView::Module(name@),
            PathTag::Config => TagView::Config,
        }
    }
}

/// A key identifying one piece of ledger state: a resource under an address.
#[derive(Clone, Debug)]
pub struct AccessPath {
    pub address: Address,
    pub tag: PathTag,
}

pub struct PathView {
    pub address: Address,
    pub tag: TagView,
}

impl View for AccessPath {
    type V = PathView;

    open spec fn view(&self) -> PathView {
        PathView { address: self.address, tag: self.tag@ }
    }
}

/// The account resource the prologue consults: replay protection and the key
/// a submitted transaction must have been signed with.
#[derive(Clone, Copy, Debug, PartialEq, Eq, Structural)]
pub struct AccountResource {
    pub sequence_number: u64,
    pub authentication_key: Address,
}

/// The coin balance resource gas is debited from.
#[derive(Clone, Copy, Debug, PartialEq, Eq, Structural)]
pub struct BalanceResource {
    pub coin: u64,
}

/// One piece of ledger state, keyed by an `AccessPath`.
#[derive(Clone, Debug)]
pub enum StateValue {
    Account(AccountResource),
    Balance(BalanceResource),
    Module(CompiledModule),
    Config(VMPublishingOption),
}

pub enum ValueView {
    Account(AccountResource),
    Balance(BalanceResource),
    Module(ModuleView),
    Config(PolicyView),
}

impl View for StateValue {
    type V = ValueView;

    open spec fn view(&self) -> ValueView {
        match self {
            StateValue::Account(a) => ValueView::Account(*a),
            StateValue::Balance(b) => ValueView::Balance(*b),
            StateValue::Module(m) => ValueView::Module(m@),
            StateValue::Config(p) => ValueView::Config(p@),
        }
    }
}

/// One mutation in a write-set: store a value at a path, or delete the path.
#[derive(Clone, Debug)]
pub enum WriteOp {
    Value(StateValue),
    Deletion,
}

pub enum OpView {
    Value(ValueView),
    Deletion,
}

impl View for WriteOp {
    type V = OpView;

    open spec fn view(&self) -> OpView {
        match self {
            WriteOp::Value(v) => OpView::Value(v@),
            WriteOp::Deletion => OpView::Deletion,
        }
    }
}

pub open spec fn write_entry_view(e: (AccessPath, WriteOp)) -> (PathView, OpView) {
    (e.0@, e.1@)
}

/// An ordered batch of state mutations produced by one transaction. It is a
/// delta, not an absolute state: within one batch a later operation on the
/// same path overrides an earlier one.
#[derive(Clone, Debug)]
pub struct WriteSet {
    pub ops: Vec<(AccessPath, WriteOp)>,
}

impl View for WriteSet {
    type V = Seq<(PathView, OpView)>;

    open spec fn view(&self) -> Seq<(PathView, OpView)> {
        self.ops@.map_values(|e: (AccessPath, WriteOp)| write_entry_view(e))
    }
}

impl WriteSet {
    pub fn new() -> (ws: WriteSet)
        ensures
            ws@ =~= Seq::<(PathView, OpView)>::empty(),
    {
        WriteSet { ops: Vec::new() }
    }

    pub fn push(&mut self, path: AccessPath, op: WriteOp)
        ensures
            final(self)@ == old(self)@.push((path@, op@)),
    {
        self.ops.push((path, op));
        proof {
            assert(self@ =~= old(self)@.push((path@, op@)));
        }
    }

    pub fn len(&self) -> (n: usize)
        ensures
            n == self@.len(),
    {
        self.ops.len()
    }

    pub fn is_empty(&self) -> (r: bool)
        ensures
            r == (self@.len() == 0),
    {
        self.ops.len() == 0
    }
}

/// Element-wise copy of a character vector.
pub fn copy_chars(v: &Vec<char>) -> (r: Vec<char>)
    ensures
        r@ == v@,
{
    let mut r: Vec<char> = Vec::new();
    let n = v.len();
    let mut i: usize = 0;
    while i < n
        invariant
            i <= n,
            n == v.len(),
            r@ =~= v@.subrange(0, i as int),
        decreases n - i,
    {
        r.push(v[i]);
        i = i + 1;
    }
    proof {
        assert(v@.subrange(0, n as int) =~= v@);
    }
    r
}

/// Element-wise equality of two character vectors.
pub fn chars_eq(a: &Vec<char>, b: &Vec<char>) -> (r: bool)
    ensures
        r == (a@ == b@),
{
    let n = a.len();
    if n != b.len() {
        return false;
    }
    let mut i: usize = 0;
    while i < n
        invariant
            i <= n,
            n == a.len() == b.len(),
            forall|j: int| 0 <= j < i ==> a@[j] == b@[j],
        decreases n - i,
    {
        if a[i] != b[i] {
            return false;
        }
        i = i + 1;
    }
    proof {
        assert(a@ =~= b@);
    }
    true
}

/// Structural equality of two paths, stated over their views.
pub fn path_eq(a: &AccessPath, b: &AccessPath) -> (r: bool)
    ensures
        r == (a@ == b@),
{
    if a.address != b.address {
        return false;
    }
    match (&a.tag, &b.tag) {
        (PathTag::AccountRes, PathTag::AccountRes) => true,
        (PathTag::BalanceRes, PathTag::BalanceRes) => true,
        (PathTag::Module(n1), PathTag::Module(n2)) => chars_eq(n1, n2),
        (PathTag::Config, PathTag::Config) => true,
        _ => false,
    }
}

/// The value the journal associates with `k`: the most recent entry wins, and
/// a `None` entry records a deletion.
pub open spec fn lookup(s: Seq<(AccessPath, Option<StateValue>)>, k: PathView) -> Option<ValueView>
    decreases s.len(),
{
    if s.len() == 0 {
        None
    } else if s.last().0@ == k {
        match s.last().1 {
            Some(v) => Some(v@),
            None => None,
        }
    } else {
        lookup(s.drop_last(), k)
    }
}

pub proof fn lemma_lookup_push(
    s: Seq<(AccessPath, Option<StateValue>)>,
    e: (AccessPath, Option<StateValue>),
    k: PathView,
)
    ensures
        lookup(s.push(e), k) == (if e.0@ == k {
            match e.1 {
                Some(v) => Some(v@),
                None => None::<ValueView>,
            }
        } else {
            lookup(s, k)
        }),
{
    assert(s.push(e).last() == e);
    assert(s.push(e).drop_last() =~= s);
}

/// An in-memory key/value view of ledger state: one point-in-time snapshot,
/// owned exclusively by one executor. Internally a journal of writes; its
/// view is the resulting path-to-value map.
pub struct FakeDataStore {
    pub entries: Vec<(AccessPath, Option<StateValue>)>,
}

impl View for FakeDataStore {
    type V = Map<PathView, ValueView>;

    open spec fn view(&self) -> Map<PathView, ValueView> {
        Map::new(
            |k: PathView| lookup(self.entries@, k) is Some,
            |k: PathView| lookup(self.entries@, k).unwrap(),
        )
    }
}

pub open spec fn apply_op_spec(
    m: Map<PathView, ValueView>,
    e: (PathView, OpView),
) -> Map<PathView, ValueView> {
    match e.1 {
        OpView::Value(v) => m.insert(e.0, v),
        OpView::Deletion => m.remove(e.0),
    }
}

pub open spec fn apply_ops_from(
    m: Map<PathView, ValueView>,
    ops: Seq<(PathView, OpView)>,
    i: int,
) -> Map<PathView, ValueView>
    decreases ops.len() - i when 0 <= i <= ops.len()
{
    if i == ops.len() {
        m
    } else {
        apply_ops_from(apply_op_spec(m, ops[i]), ops, i + 1)
    }
}

/// The store that results from applying every operation of a write-set in
/// order.
pub open spec fn apply_write_set_spec(
    m: Map<PathView, ValueView>,
    ops: Seq<(PathView, OpView)>,
) -> Map<PathView, ValueView> {
    apply_ops_from(m, ops, 0)
}

impl FakeDataStore {
    pub fn new() -> (s: FakeDataStore)
        ensures
            s@ =~= Map::<PathView, ValueView>::empty(),
    {
        let s = FakeDataStore { entries: Vec::new() };
        proof {
            assert forall|k: PathView| !(#[trigger] lookup(s.entries@, k) is Some) by {
                assert(s.entries@.len() == 0);
            }
        }
        s
    }

    /// Reads one path. Absence is a meaningful state, not an error: the
    /// account or module simply does not exist yet.
    pub fn read(&self, path: &AccessPath) -> (r: Option<&StateValue>)
        ensures
            match r {
                Some(v) => self@.contains_key(path@) && v@ == self@[path@],
                None => !self@.contains_key(path@),
            },
    {
        let ghost all = self.entries@;
        let n = self.entries.len();
        let mut i: usize = n;
        proof {
            assert(all.subrange(0, n as int) =~= all);
        }
        while i > 0
            invariant
                i <= n,
                n == self.entries@.len(),
                all == self.entries@,
                lookup(all, path@) == lookup(all.subrange(0, i as int), path@),
            decreases i,
        {
            let entry = &self.entries[i - 1];
            let ghost pre = all.subrange(0, i as int);
            proof {
                assert(pre.last() == all[i - 1]);
                assert(pre.drop_last() =~= all.subrange(0, i - 1));
            }
            if path_eq(&entry.0, path) {
                match &entry.1 {
                    Some(v) => {
                        return Some(v);
                    },
                    None => {
                        return None;
                    },
                }
            }
            i = i - 1;
        }
        None
    }

    /// Stores `value` at `path`, superseding any earlier value there.
    pub fn set(&mut self, path: AccessPath, value: StateValue)
        ensures
            final(self)@ == old(self)@.insert(path@, value@),
    {
        let ghost s0 = self.entries@;
        let ghost pv = path@;
        let ghost vv = value@;
        let ghost e = (path, Some(value));
        self.entries.push((path, Some(value)));
        proof {
            assert(self.entries@ == s0.push(e));
            assert forall|k: PathView| #[trigger] lookup(self.entries@, k) == (if k == pv {
                Some(vv)
            } else {
                lookup(s0, k)
            }) by {
                lemma_lookup_push(s0, e, k);
            }
            assert(self@ =~= old(self)@.insert(pv, vv));
        }
    }

    /// Deletes whatever `path` holds; deleting an absent path leaves the
    /// store unchanged.
    pub fn remove(&mut self, path: AccessPath)
        ensures
            final(self)@ == old(self)@.remove(path@),
    {
        let ghost s0 = self.entries@;
        let ghost pv = path@;
        let ghost e = (path, None::<StateValue>);
        self.entries.push((path, None));
        proof {
            assert(self.entries@ == s0.push(e));
            assert forall|k: PathView| #[trigger] lookup(self.entries@, k) == (if k == pv {
                None::<ValueView>
            } else {
                lookup(s0, k)
            }) by {
                lemma_lookup_push(s0, e, k);
            }
            assert(self@ =~= old(self)@.remove(pv));
        }
    }

    /// Applies a write-set as one batch, each operation in order.
    pub fn apply_write_set(&mut self, write_set: &WriteSet)
        ensures
            final(self)@ == apply_write_set_spec(old(self)@, write_set@),
    {
        let n = write_set.ops.len();
        let mut i: usize = 0;
        while i < n
            invariant
                i <= n,
                n == write_set.ops.len(),
                apply_ops_from(old(self)@, write_set@, 0) == apply_ops_from(
                    self@,
                    write_set@,
                    i as int,
                ),
            decreases n - i,
        {
            let entry = &write_set.ops[i];
            let ghost cur = self@;
            proof {
                assert(write_set@[i as int] == write_entry_view(write_set.ops@[i as int]));
            }
            let path = copy_path(&entry.0);
            match &entry.1 {
                WriteOp::Value(v) => {
                    let value = copy_value(v);
                    self.set(path, value);
                },
                WriteOp::Deletion => {
                    self.remove(path);
                },
            }
            proof {
                assert(self@ == apply_op_spec(cur, write_set@[i as int]));
                assert(apply_ops_from(cur, write_set@, i as int) == apply_ops_from(
                    self@,
                    write_set@,
                    i + 1,
                ));
            }
            i = i + 1;
        }
    }
}

/// Structural copy of a path, stated over views.
pub fn copy_path(p: &AccessPath) -> (r: AccessPath)
    ensures
        r@ == p@,
{
    let tag = match &p.tag {
        PathTag::AccountRes => PathTag::AccountRes,
        PathTag::BalanceRes => PathTag::BalanceRes,
        PathTag::Module(name) => PathTag::Module(copy_chars(name)),
        PathTag::Config => PathTag::Config,
    };
    AccessPath { address: p.address, tag }
}

/// Element-wise copy of a byte vector.
pub fn copy_bytes(v: &Vec<u8>) -> (r: Vec<u8>)
    ensures
        r@ == v@,
{
    let mut r: Vec<u8> = Vec::new();
    let n = v.len();
    let mut i: usize = 0;
    while i < n
        invariant
            i <= n,
            n == v.len(),
            r@ =~= v@.subrange(0, i as int),
        decreases n - i,
    {
        r.push(v[i]);
        i = i + 1;
    }
    proof {
        assert(v@.subrange(0, n as int) =~= v@);
    }
    r
}

/// Structural copy of a module blob, stated over views.
pub fn copy_module(m: &CompiledModule) -> (r: CompiledModule)
    ensures
        r@ == m@,
{
    CompiledModule { address: m.address, name: copy_chars(&m.name) }
}

/// Structural copy of a publishing policy, stated over views.
pub fn copy_policy(p: &VMPublishingOption) -> (r: VMPublishingOption)
    ensures
        r@ == p@,
{
    match p {
        VMPublishingOption::Open => VMPublishingOption::Open,
        VMPublishingOption::CustomScripts => VMPublishingOption::CustomScripts,
        VMPublishingOption::Locked(allowed) => {
            let mut copied: Vec<Vec<u8>> = Vec::new();
            let n = allowed.len();
            let mut i: usize = 0;
            while i < n
                invariant
                    i <= n,
                    n == allowed.len(),
                    bytes_views(copied@) =~= bytes_views(allowed@).subrange(0, i as int),
                decreases n - i,
            {
                let b = copy_bytes(&allowed[i]);
                let ghost prev = copied@;
                copied.push(b);
                proof {
                    assert(copied@ == prev.push(b));
                    assert(bytes_views(prev).len() == prev.len());
                    assert(bytes_views(copied@).len() == copied@.len());
                    assert(bytes_views(allowed@).len() == allowed@.len());
                    assert(prev.len() == i);
                    assert forall|j: int| 0 <= j < prev.len() + 1 implies #[trigger] bytes_views(
                        copied@,
                    )[j] == bytes_views(allowed@).subrange(0, i + 1)[j] by {
                        if j < prev.len() {
                            assert(copied@[j] == prev[j]);
                            assert(bytes_views(prev)[j] == bytes_views(allowed@).subrange(
                                0,
                                i as int,
                            )[j]);
                        } else {
                            assert(copied@[j] == b);
                        }
                    }
                    assert(bytes_views(copied@) =~= bytes_views(allowed@).subrange(0, i + 1));
                }
                i = i + 1;
            }
            proof {
                assert(bytes_views(allowed@).subrange(0, n as int) =~= bytes_views(allowed@));
            }
            VMPublishingOption::Locked(copied)
        },
    }
}

/// Structural copy of a state value, stated over views.
pub fn copy_value(v: &StateValue) -> (r: StateValue)
    ensures
        r@ == v@,
{
    match v {
        StateValue::Account(a) => StateValue::Account(*a),
        StateValue::Balance(b) => StateValue::Balance(*b),
        StateValue::Module(m) => StateValue::Module(copy_module(m)),
        StateValue::Config(p) => StateValue::Config(copy_policy(p)),
    }
}

} // verus!
