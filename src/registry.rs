//! The table of live streaming sessions and their cancellation.

use vstd::prelude::*;

use std::collections::HashMap;

use crate::errors::ErrorKind;

verus! {

broadcast use vstd::std_specs::hash::group_hash_axioms;

#[verifier::external_type_specification]
#[verifier::external_body]
#[verifier::reject_recursive_types(T)]
pub struct ExJoinHandle<T>(tokio::task::JoinHandle<T>);

#[verifier::external_type_specification]
#[verifier::external_body]
pub struct ExJoinError(tokio::task::JoinError);

/// Relies on tokio::task::JoinHandle::abort: asks the runtime to stop the task.
#[verifier::external_body]
fn abort_task(handle: &tokio::task::JoinHandle<()>) {
    handle.abort()
}

/// The table of live streaming sessions: session identifier to the handle of
/// the background work that serves it.
pub struct SessionRegistry<H> {
    entries: HashMap<u128, H>,
}

impl<H> View for SessionRegistry<H> {
    type V = Map<u128, H>;

    closed spec fn view(&self) -> Map<u128, H> {
        self.entries@
    }
}

impl<H> SessionRegistry<H> {
    /// An empty registry.
    pub fn new() -> (r: SessionRegistry<H>)
        ensures
            r@ == Map::<u128, H>::empty(),
    {
        SessionRegistry { entries: HashMap::new() }
    }

    /// Adds `id`. An identifier that is already present is refused with
    /// `DuplicateSession`, and the handle is given back untouched.
    pub fn register(&mut self, id: u128, handle: H) -> (r: Result<(), (ErrorKind, H)>)
        ensures
            old(self)@.contains_key(id) ==> {
                &&& r == Err::<(), (ErrorKind, H)>((ErrorKind::DuplicateSession, handle))
                &&& final(self)@ == old(self)@
            },
            !old(self)@.contains_key(id) ==> {
                &&& r is Ok
                &&& final(self)@ == old(self)@.insert(id, handle)
            },
    {
        if self.entries.contains_key(&id) {
            Err((ErrorKind::DuplicateSession, handle))
        } else {
            self.entries.insert(id, handle);
            Ok(())
        }
    }

    /// Takes `id` out of the registry and returns its handle; an unknown
    /// identifier leaves the registry unchanged and gives `None`.
    pub fn cancel(&mut self, id: u128) -> (r: Option<H>)
        ensures
            final(self)@ == old(self)@.remove(id),
            !final(self)@.contains_key(id),
            old(self)@.contains_key(id) ==> r == Some(old(self)@[id]),
            !old(self)@.contains_key(id) ==> r is None && final(self)@ == old(self)@,
    {
        let r = self.entries.remove(&id);
        proof {
            if !old(self)@.contains_key(id) {
                assert(self@ =~= old(self)@);
            }
        }
        r
    }

    /// Removal by the session's own task when it ends; removing an absent
    /// identifier is a no-op. Returns whether `id` was present.
    pub fn remove(&mut self, id: u128) -> (r: bool)
        ensures
            final(self)@ == old(self)@.remove(id),
            r == old(self)@.contains_key(id),
    {
        let r = self.entries.remove(&id);
        r.is_some()
    }

    pub fn contains(&self, id: u128) -> (r: bool)
        ensures
            r == self@.contains_key(id),
    {
        self.entries.contains_key(&id)
    }

    pub fn len(&self) -> (r: usize)
        ensures
            r == self@.len(),
    {
        self.entries.len()
    }
}

/// Cancels the streaming session `id`: its entry leaves the registry and its
/// task is told to stop. An unknown or finished session is a no-op; this
/// never fails.
pub fn cancel_download_stream(
    registry: &mut SessionRegistry<tokio::task::JoinHandle<()>>,
    id: u128,
)
    ensures
        final(registry)@ == old(registry)@.remove(id),
        !final(registry)@.contains_key(id),
        !old(registry)@.contains_key(id) ==> final(registry)@ == old(registry)@,
{
    if let Some(handle) = registry.cancel(id) {
        abort_task(&handle);
    }
}

} // verus!
