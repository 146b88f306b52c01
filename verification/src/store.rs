//! The session store: a single slot that holds at most one live session
//! handle, together with the counter from which handle identities are minted.

use vstd::prelude::*;

verus! {

/// A session handle stands for a shared-ownership reference to the live
/// wallet client. The bridge models the reference by the numeric identity it
/// minted for it; the host keeps the actual reference-counted pointer under
/// the same identity. Cloning a handle (it is `Copy`) models cloning the
/// shared pointer: a background task that took a copy keeps its session alive
/// independently of what the store holds afterwards.
#[derive(Clone, Copy, PartialEq, Eq, Debug)]
pub struct SessionHandle {
    pub id: u64,
}

/// The process-wide holder of at most one session handle. `next_id` is the
/// identity the next minted handle will get; it only ever grows, so no two
/// minted handles are ever equal.
#[derive(Clone, Copy, Debug)]
pub struct SessionStore {
    pub slot: Option<SessionHandle>,
    pub next_id: u64,
}

impl SessionStore {
    /// Well-formedness: whatever occupies the slot was minted by this store,
    /// so its identity lies below `next_id`.
    pub open spec fn wf(&self) -> bool {
        self.slot matches Some(h) ==> h.id < self.next_id
    }
}

/// The store after its slot has been emptied.
pub open spec fn spec_cleared(s: SessionStore) -> SessionStore {
    SessionStore { slot: None, next_id: s.next_id }
}

/// The store after minting one fresh handle, together with that handle.
pub open spec fn spec_minted(s: SessionStore) -> (SessionStore, SessionHandle) {
    (
        SessionStore { slot: s.slot, next_id: (s.next_id + 1) as u64 },
        SessionHandle { id: s.next_id },
    )
}

/// The store after a handle has been published into its slot.
pub open spec fn spec_published(s: SessionStore, h: SessionHandle) -> SessionStore {
    SessionStore { slot: Some(h), next_id: s.next_id }
}

impl SessionStore {
    /// An empty store: no session, no identity handed out yet.
    pub fn new() -> (s: SessionStore)
        ensures
            s.slot is None,
            s.next_id == 0,
            s.wf(),
    {
        SessionStore { slot: None, next_id: 0 }
    }

    /// Replaces the slot unconditionally: no merge, no refusal when a handle
    /// is already present.
    pub fn set(&mut self, handle: SessionHandle)
        ensures
            *final(self) == spec_published(*old(self), handle),
            old(self).wf() && handle.id < old(self).next_id ==> final(self).wf(),
    {
        self.slot = Some(handle);
    }

    /// Empties the slot, whatever it held.
    pub fn clear(&mut self)
        ensures
            *final(self) == spec_cleared(*old(self)),
            final(self).wf(),
    {
        self.slot = None;
    }

    /// Returns a copy of the current handle, or `None` when no session is
    /// set. Absence is a defined, queryable state, not a failure.
    pub fn get(&self) -> (r: Option<SessionHandle>)
        ensures
            r == self.slot,
    {
        self.slot
    }

    /// Mints a fresh handle: one that differs from everything this store ever
    /// handed out, in particular from the current occupant of the slot. The
    /// slot itself is untouched.
    pub fn mint(&mut self) -> (h: SessionHandle)
        requires
            old(self).next_id < u64::MAX,
        ensures
            *final(self) == spec_minted(*old(self)).0,
            h == spec_minted(*old(self)).1,
            final(self).slot == old(self).slot,
            old(self).wf() ==> final(self).wf() && (old(self).slot matches Some(g) ==> g != h),
    {
        let h = SessionHandle { id: self.next_id };
        self.next_id = self.next_id + 1;
        h
    }
}

} // verus!
