use vstd::prelude::*;

use crate::errors::McpError;
use crate::strmap::StrMap;

verus! {

/// A handle to one running external tool service.
///
/// The two variants record whether the connection went through an
/// initialization handshake; dispatch is identical for both, so callers
/// stay oblivious to the handshake state. The payload is the identifier
/// under which the embedding application keeps the live connection object.
/// The variant is fixed at creation: a service that needs re-initialization
/// is replaced wholesale, never mutated in place.
#[derive(Clone, Copy, Debug, PartialEq, Eq, Structural)]
pub enum RunningServiceEnum {
    NoInit(u64),
    WithInit(u64),
}

impl RunningServiceEnum {
    /// The connection this handle dispatches to, independent of the variant.
    pub open spec fn spec_connection(self) -> u64 {
        match self {
            RunningServiceEnum::NoInit(c) => c,
            RunningServiceEnum::WithInit(c) => c,
        }
    }

    /// Dispatch resolves to the same connection whichever initialization
    /// variant the handle carries.
    pub fn connection(&self) -> (c: u64)
        ensures
            c == self.spec_connection(),
    {
        match self {
            RunningServiceEnum::NoInit(c) => *c,
            RunningServiceEnum::WithInit(c) => *c,
        }
    }
}

/// One serialized operation on the registry.
pub enum RegistryOp {
    Register { name: Seq<char>, handle: RunningServiceEnum },
    Remove { name: Seq<char> },
}

impl RegistryOp {
    /// The service name the operation touches.
    pub open spec fn op_name(self) -> Seq<char> {
        match self {
            RegistryOp::Register { name, .. } => name,
            RegistryOp::Remove { name } => name,
        }
    }
}

/// The effect of one registry operation: a registration of a present name
/// fails and leaves the contents alone; removal is idempotent.
pub open spec fn registry_step(
    m: Map<Seq<char>, RunningServiceEnum>,
    op: RegistryOp,
) -> Map<Seq<char>, RunningServiceEnum> {
    match op {
        RegistryOp::Register { name, handle } => if m.contains_key(name) {
            m
        } else {
            m.insert(name, handle)
        },
        RegistryOp::Remove { name } => m.remove(name),
    }
}

/// The net effect of a sequence of registry operations, applied in
/// submission order.
pub open spec fn registry_run(
    m: Map<Seq<char>, RunningServiceEnum>,
    ops: Seq<RegistryOp>,
) -> Map<Seq<char>, RunningServiceEnum>
    decreases ops.len(),
{
    if ops.len() == 0 {
        m
    } else {
        registry_step(registry_run(m, ops.drop_last()), ops.last())
    }
}

/// The subsequence of `ops` that touches the name `k`, in submission order.
pub open spec fn ops_on(ops: Seq<RegistryOp>, k: Seq<char>) -> Seq<RegistryOp>
    decreases ops.len(),
{
    if ops.len() == 0 {
        Seq::empty()
    } else if ops.last().op_name() == k {
        ops_on(ops.drop_last(), k).push(ops.last())
    } else {
        ops_on(ops.drop_last(), k)
    }
}

/// What a run of registry operations leaves at a name is the net effect of
/// just that name's operations, applied in their submission order:
/// operations on other names never disturb it.
pub proof fn lemma_registry_run_per_name(
    m: Map<Seq<char>, RunningServiceEnum>,
    ops: Seq<RegistryOp>,
    k: Seq<char>,
)
    ensures
        registry_run(m, ops).contains_key(k) == registry_run(m, ops_on(ops, k)).contains_key(k),
        registry_run(m, ops).contains_key(k) ==>
            registry_run(m, ops)[k] == registry_run(m, ops_on(ops, k))[k],
    decreases ops.len(),
{
    if ops.len() > 0 {
        lemma_registry_run_per_name(m, ops.drop_last(), k);
        let prev = registry_run(m, ops.drop_last());
        let prev_on = registry_run(m, ops_on(ops.drop_last(), k));
        if ops.last().op_name() == k {
            assert(ops_on(ops, k).drop_last() =~= ops_on(ops.drop_last(), k));
            assert(registry_run(m, ops_on(ops, k)) == registry_step(prev_on, ops.last()));
        } else {
            assert(registry_step(prev, ops.last()).contains_key(k) == prev.contains_key(k));
        }
    }
}

/// Registry operations on distinct names commute: either order of two such
/// operations leaves the same contents.
pub proof fn lemma_registry_ops_commute(
    m: Map<Seq<char>, RunningServiceEnum>,
    op1: RegistryOp,
    op2: RegistryOp,
)
    requires
        op1.op_name() != op2.op_name(),
    ensures
        registry_step(registry_step(m, op1), op2) == registry_step(registry_step(m, op2), op1),
{
    assert(registry_step(registry_step(m, op1), op2) =~= registry_step(
        registry_step(m, op2),
        op1,
    ));
}

/// The mapping from service name to its running handle: the unit of mutual
/// exclusion for adding, removing and looking services up. The embedding
/// application serializes calls into one registry, which makes each
/// operation below one atomic critical section.
pub struct ServiceRegistry {
    table: StrMap<RunningServiceEnum>,
}

impl View for ServiceRegistry {
    type V = Map<Seq<char>, RunningServiceEnum>;

    closed spec fn view(&self) -> Map<Seq<char>, RunningServiceEnum> {
        self.table@
    }
}

impl ServiceRegistry {
    pub closed spec fn wf(self) -> bool {
        self.table.wf()
    }

    pub fn new() -> (r: Self)
        ensures
            r.wf(),
            r@ == Map::<Seq<char>, RunningServiceEnum>::empty(),
    {
        ServiceRegistry { table: StrMap::new() }
    }

    /// Insert a service under a fresh name. A present name fails with
    /// `AlreadyRunning` and never mutates the existing entry; the caller
    /// must remove or replace it explicitly first.
    pub fn register(&mut self, name: String, handle: RunningServiceEnum) -> (r: Result<
        (),
        McpError,
    >)
        requires
            old(self).wf(),
        ensures
            final(self).wf(),
            final(self)@ == registry_step(
                old(self)@,
                RegistryOp::Register { name: name@, handle },
            ),
            old(self)@.contains_key(name@) ==> (r matches Err(McpError::AlreadyRunning)
                && *final(self) == *old(self)),
            !old(self)@.contains_key(name@) ==> (r matches Ok(_)
                && final(self)@ == old(self)@.insert(name@, handle)),
    {
        if self.table.contains(&name) {
            Err(McpError::AlreadyRunning)
        } else {
            self.table.insert(name, handle);
            Ok(())
        }
    }

    /// Look a service up by name; an absent name fails with `NotFound`.
    pub fn lookup(&self, name: &String) -> (r: Result<RunningServiceEnum, McpError>)
        requires
            self.wf(),
        ensures
            self@.contains_key(name@) ==> (r matches Ok(h) && h == self@[name@]),
            !self@.contains_key(name@) ==> (r matches Err(McpError::NotFound)),
    {
        match self.table.get(name) {
            Some(h) => Ok(*h),
            None => Err(McpError::NotFound),
        }
    }

    /// Remove a service; removing an absent name is a no-op.
    pub fn remove(&mut self, name: &String) -> (r: Option<RunningServiceEnum>)
        requires
            old(self).wf(),
        ensures
            final(self).wf(),
            final(self)@ == registry_step(old(self)@, RegistryOp::Remove { name: name@ }),
            final(self)@ == old(self)@.remove(name@),
            (match r {
                Some(h) => old(self)@.contains_key(name@) && h == old(self)@[name@],
                None => !old(self)@.contains_key(name@),
            }),
    {
        self.table.remove(name)
    }

    /// Whether a service of this name is registered.
    pub fn contains(&self, name: &String) -> (r: bool)
        requires
            self.wf(),
        ensures
            r == self@.contains_key(name@),
    {
        self.table.contains(name)
    }

    /// A snapshot of the registered names; their order carries no meaning.
    pub fn list_names(&self) -> (r: Vec<String>)
        requires
            self.wf(),
        ensures
            forall|i: int| 0 <= i < r@.len() ==> self@.contains_key(#[trigger] r@[i]@),
            forall|k: Seq<char>| self@.contains_key(k) ==>
                exists|i: int| 0 <= i < r@.len() && #[trigger] r@[i]@ == k,
            forall|i: int, j: int| 0 <= i < j < r@.len() ==> r@[i]@ != r@[j]@,
    {
        self.table.keys()
    }

    /// A snapshot of the registered services with their handles.
    pub fn entries(&self) -> (r: Vec<(String, RunningServiceEnum)>)
        requires
            self.wf(),
        ensures
            forall|i: int| #![trigger r@[i]] 0 <= i < r@.len() ==>
                self@.contains_key(r@[i].0@) && self@[r@[i].0@] == r@[i].1,
            forall|k: Seq<char>| self@.contains_key(k) ==>
                exists|i: int| 0 <= i < r@.len() && #[trigger] r@[i].0@ == k,
            forall|i: int, j: int| 0 <= i < j < r@.len() ==> r@[i].0@ != r@[j].0@,
    {
        self.table.entries()
    }

    /// Whether no service is registered.
    pub fn is_empty(&self) -> (r: bool)
        requires
            self.wf(),
        ensures
            r == (self@ == Map::<Seq<char>, RunningServiceEnum>::empty()),
    {
        self.table.is_empty()
    }

    /// Drop every entry.
    pub fn clear(&mut self)
        ensures
            final(self).wf(),
            final(self)@ == Map::<Seq<char>, RunningServiceEnum>::empty(),
    {
        self.table.clear()
    }
}

} // verus!
