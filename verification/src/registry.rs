//! The task registry: which notifications have a running timer task.
//!
//! The registry maps the identifier of a notification to the handle of the
//! task that runs its timer. It is the only place through which a timer is
//! cancelled. An entry leaves the registry once: when the timer retires
//! itself, or when it is cancelled, whichever comes first.

use vstd::prelude::*;
use std::collections::HashMap;
use tokio::task::JoinHandle;

verus! {

/// The handle of a spawned task. Nothing is known of what it holds.
#[verifier::external_type_specification]
#[verifier::external_body]
#[verifier::reject_recursive_types(T)]
pub struct ExJoinHandle<T>(JoinHandle<T>);

/// The error with which a task ends, which the type of the handle names as
/// what awaiting it may give. Nothing is known of what it holds.
#[verifier::external_type_specification]
#[verifier::external_body]
pub struct ExJoinError(tokio::task::JoinError);

/// Calls `JoinHandle::abort`, which asks the runtime to stop the task at its
/// next suspension point. The call returns at once and nothing is claimed of it.
#[verifier::external_body]
fn abort_task(handle: &JoinHandle<()>) {
    handle.abort();
}

/// No timer is registered under the identifier.
#[derive(Clone, Copy, Debug, PartialEq, Eq, Structural)]
pub struct NotFound {
    pub id: u16,
}

/// The running timers, by notification identifier.
pub struct TaskRegistry {
    tasks: HashMap<u16, JoinHandle<()>>,
}

impl View for TaskRegistry {
    type V = Map<u16, JoinHandle<()>>;

    closed spec fn view(&self) -> Map<u16, JoinHandle<()>> {
        self.tasks@
    }
}

impl TaskRegistry {
    /// A registry without entries.
    pub fn new() -> (r: Self)
        ensures
            r@ == Map::<u16, JoinHandle<()>>::empty(),
    {
        TaskRegistry { tasks: HashMap::new() }
    }

    /// The number of registered timers.
    pub fn len(&self) -> (r: usize)
        ensures
            r == self@.len(),
            self@.dom().finite(),
    {
        self.tasks.len()
    }

    /// Whether a timer is registered under `id`.
    pub fn contains(&self, id: u16) -> (r: bool)
        ensures
            r == self@.contains_key(id),
    {
        self.tasks.contains_key(&id)
    }

    /// Registers `handle` under `id`. An identifier that is already
    /// registered is refused: the registry stays as it was and the handle
    /// comes back.
    pub fn register(&mut self, id: u16, handle: JoinHandle<()>) -> (r: Result<(), JoinHandle<()>>)
        ensures
            r is Ok <==> !old(self)@.contains_key(id),
            r is Ok ==> final(self)@ == old(self)@.insert(id, handle),
            r is Err ==> final(self)@ == old(self)@ && r->Err_0 == handle,
    {
        if self.tasks.contains_key(&id) {
            Err(handle)
        } else {
            self.tasks.insert(id, handle);
            Ok(())
        }
    }

    /// Cancels the timer registered under `id` and removes its entry. Where
    /// none is registered the registry stays as it was.
    pub fn cancel_and_forget(&mut self, id: u16) -> (r: Result<(), NotFound>)
        ensures
            old(self)@.contains_key(id) ==> r == Ok::<(), NotFound>(()),
            old(self)@.contains_key(id) ==> final(self)@ == old(self)@.remove(id),
            !old(self)@.contains_key(id) ==> r == Err::<(), NotFound>(NotFound { id }),
            !old(self)@.contains_key(id) ==> final(self)@ == old(self)@,
    {
        match self.tasks.remove(&id) {
            Some(handle) => {
                abort_task(&handle);
                Ok(())
            },
            None => {
                assert(self@ =~= old(self)@);
                Err(NotFound { id })
            },
        }
    }

    /// Removes the entry of a timer that retires itself, without cancelling
    /// it. Where none is registered the registry stays as it was.
    pub fn forget(&mut self, id: u16) -> (r: Result<(), NotFound>)
        ensures
            old(self)@.contains_key(id) ==> r == Ok::<(), NotFound>(()),
            old(self)@.contains_key(id) ==> final(self)@ == old(self)@.remove(id),
            !old(self)@.contains_key(id) ==> r == Err::<(), NotFound>(NotFound { id }),
            !old(self)@.contains_key(id) ==> final(self)@ == old(self)@,
    {
        match self.tasks.remove(&id) {
            Some(_) => Ok(()),
            None => {
                assert(self@ =~= old(self)@);
                Err(NotFound { id })
            },
        }
    }

    /// Cancels every registered timer and empties the registry.
    pub fn cancel_all(&mut self)
        ensures
            final(self)@ == Map::<u16, JoinHandle<()>>::empty(),
    {
        for handle in it: self.tasks.values() {
            abort_task(handle);
        }
        self.tasks.clear();
    }
}

/// Cancelling a registered timer removes exactly one entry.
pub proof fn lemma_cancel_removes_one_entry(before: Map<u16, JoinHandle<()>>, id: u16)
    requires
        before.dom().finite(),
        before.contains_key(id),
    ensures
        before.remove(id).len() == before.len() - 1,
        !before.remove(id).contains_key(id),
        forall|other: u16|
            other != id ==> (#[trigger] before.remove(id).contains_key(other)
                <==> before.contains_key(other)),
{
}

} // verus!
