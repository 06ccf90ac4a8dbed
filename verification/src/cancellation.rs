use vstd::prelude::*;

use crate::errors::McpError;
use crate::strmap::StrMap;

verus! {

/// The mapping from in-flight call identifier to its one-shot cancellation
/// signal. An entry exists exactly while its call is in flight; the value
/// records whether the signal has been fired. Removal happens on every
/// exit path of the call, so no entry is ever leaked.
pub struct CancellationRegistry {
    table: StrMap<bool>,
}

/// The effect of `cancel` on the table: firing the signal of a present
/// entry (idempotently), and leaving an absent one alone.
pub open spec fn cancel_step(c: Map<Seq<char>, bool>, id: Seq<char>) -> Map<Seq<char>, bool> {
    if c.contains_key(id) {
        c.insert(id, true)
    } else {
        c
    }
}

/// The effect of resolving a call on the table: its entry leaves, on every
/// exit path alike.
pub open spec fn finish_step(c: Map<Seq<char>, bool>, id: Seq<char>) -> Map<Seq<char>, bool> {
    c.remove(id)
}

/// Whether a dispatching call that resolves now observes cancellation: its
/// entry is present and the signal was fired first.
pub open spec fn observes_cancelled(c: Map<Seq<char>, bool>, id: Seq<char>) -> bool {
    c.contains_key(id) && c[id]
}

/// For any call registered and then cancelled, the dispatching call
/// observes the cancellation, and the call identifier is absent from the
/// registry immediately after the call resolves.
pub proof fn lemma_cancelled_call_is_observed(c: Map<Seq<char>, bool>, id: Seq<char>)
    requires
        c.contains_key(id),
    ensures
        observes_cancelled(cancel_step(c, id), id),
        !finish_step(cancel_step(c, id), id).contains_key(id),
{
}

/// Firing a cancellation twice is a no-op: the second `cancel` finds the
/// signal already fired and changes nothing.
pub proof fn lemma_cancel_idempotent(c: Map<Seq<char>, bool>, id: Seq<char>)
    ensures
        cancel_step(cancel_step(c, id), id) == cancel_step(c, id),
{
    assert(cancel_step(cancel_step(c, id), id) =~= cancel_step(c, id));
}

impl View for CancellationRegistry {
    type V = Map<Seq<char>, bool>;

    closed spec fn view(&self) -> Map<Seq<char>, bool> {
        self.table@
    }
}

impl CancellationRegistry {
    pub closed spec fn wf(self) -> bool {
        self.table.wf()
    }

    pub fn new() -> (r: Self)
        ensures
            r.wf(),
            r@ == Map::<Seq<char>, bool>::empty(),
    {
        CancellationRegistry { table: StrMap::new() }
    }

    /// Enter a fresh, unfired entry for a call about to dispatch. A call
    /// identifier already in flight fails with `AlreadyRunning` and leaves
    /// the table alone.
    pub fn register_call(&mut self, call_id: String) -> (r: Result<(), McpError>)
        requires
            old(self).wf(),
        ensures
            final(self).wf(),
            old(self)@.contains_key(call_id@) ==> (r matches Err(McpError::AlreadyRunning)
                && *final(self) == *old(self)),
            !old(self)@.contains_key(call_id@) ==> (r matches Ok(_)
                && final(self)@ == old(self)@.insert(call_id@, false)),
    {
        if self.table.contains(&call_id) {
            Err(McpError::AlreadyRunning)
        } else {
            self.table.insert(call_id, false);
            Ok(())
        }
    }

    /// Fire the cancellation signal of an in-flight call. A call that
    /// already completed, or never existed, fails with `NotFound` and has
    /// no side effect; firing twice is a no-op, not an error.
    pub fn cancel(&mut self, call_id: &String) -> (r: Result<(), McpError>)
        requires
            old(self).wf(),
        ensures
            final(self).wf(),
            final(self)@ == cancel_step(old(self)@, call_id@),
            old(self)@.contains_key(call_id@) ==> (r matches Ok(_)),
            !old(self)@.contains_key(call_id@) ==> (r matches Err(McpError::NotFound)
                && *final(self) == *old(self)),
    {
        if self.table.contains(call_id) {
            self.table.set_value(call_id.clone(), true);
            Ok(())
        } else {
            Err(McpError::NotFound)
        }
    }

    /// Take the entry of a resolving call out, reporting whether its signal
    /// had been fired. Every exit path of a call goes through here, so the
    /// entry never outlives the call.
    pub fn resolve(&mut self, call_id: &String) -> (r: Option<bool>)
        requires
            old(self).wf(),
        ensures
            final(self).wf(),
            final(self)@ == finish_step(old(self)@, call_id@),
            (match r {
                Some(fired) => old(self)@.contains_key(call_id@)
                    && fired == old(self)@[call_id@]
                    && fired == observes_cancelled(old(self)@, call_id@),
                None => !old(self)@.contains_key(call_id@) && *final(self) == *old(self),
            }),
    {
        self.table.remove(call_id)
    }

    /// Whether this call identifier is in flight.
    pub fn contains(&self, call_id: &String) -> (r: bool)
        requires
            self.wf(),
        ensures
            r == self@.contains_key(call_id@),
    {
        self.table.contains(call_id)
    }

    /// A snapshot of the in-flight call identifiers.
    pub fn list_call_ids(&self) -> (r: Vec<String>)
        requires
            self.wf(),
        ensures
            forall|i: int| 0 <= i < r@.len() ==> self@.contains_key(#[trigger] r@[i]@),
            forall|k: Seq<char>| self@.contains_key(k) ==>
                exists|i: int| 0 <= i < r@.len() && #[trigger] r@[i]@ == k,
            forall|i: int, j: int| 0 <= i < j < r@.len() ==> r@[i]@ != r@[j]@,
    {
        self.table.keys()
    }

    /// Whether no call is in flight.
    pub fn is_empty(&self) -> (r: bool)
        requires
            self.wf(),
        ensures
            r == (self@ == Map::<Seq<char>, bool>::empty()),
    {
        self.table.is_empty()
    }

    /// Drop every entry.
    pub fn clear(&mut self)
        ensures
            final(self).wf(),
            final(self)@ == Map::<Seq<char>, bool>::empty(),
    {
        self.table.clear()
    }
}

} // verus!
