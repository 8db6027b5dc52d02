//! The sessions of the whole process, by session id.

use crate::session::{SessionView, SymphoData};
use std::collections::HashMap;
use vstd::prelude::*;

verus! {

/// Every session of the process, keyed by its id. A session comes into being
/// the first time its id is asked for and stays from then on.
pub struct SymphoGlobal<H> {
    sessions: HashMap<u64, SymphoData<H>>,
}

impl<H> View for SymphoGlobal<H> {
    type V = Map<u64, SymphoData<H>>;

    closed spec fn view(&self) -> Map<u64, SymphoData<H>> {
        self.sessions@
    }
}

impl<H> SymphoGlobal<H> {
    /// What every store satisfies: each of its sessions is well formed.
    pub open spec fn wf(&self) -> bool {
        forall|key: u64| self@.contains_key(key) ==> (#[trigger] self@[key]).wf()
    }

    /// Whether `self` and `other` hold the same session under every id but `key`.
    pub open spec fn same_but(&self, other: &SymphoGlobal<H>, key: u64) -> bool {
        forall|k: u64|
            k != key ==> (#[trigger] self@.contains_key(k) <==> other@.contains_key(k)) && (
            self@.contains_key(k) ==> self@[k] == other@[k])
    }

    /// The session under `key` as plain values; a session that was never
    /// asked for is as a new one.
    pub open spec fn session(&self, key: u64) -> SessionView<H> {
        if self@.contains_key(key) {
            self@[key]@
        } else {
            SymphoData::<H>::fresh()
        }
    }

    /// A store without sessions.
    pub fn new() -> (store: SymphoGlobal<H>)
        ensures
            store.wf(),
            store@ == Map::<u64, SymphoData<H>>::empty(),
    {
        SymphoGlobal { sessions: HashMap::new() }
    }

    /// How many sessions there are.
    pub fn len(&self) -> (count: usize)
        ensures
            count == self@.len(),
    {
        broadcast use vstd::std_specs::hash::group_hash_axioms;

        self.sessions.len()
    }

    /// Whether there is a session under `key`.
    pub fn contains(&self, key: u64) -> (known: bool)
        ensures
            known == self@.contains_key(key),
    {
        broadcast use vstd::std_specs::hash::group_hash_axioms;

        self.sessions.contains_key(&key)
    }

    /// The session under `key`, if there is one.
    pub fn get(&self, key: u64) -> (session: Option<&SymphoData<H>>)
        ensures
            match session {
                Some(s) => self@.contains_key(key) && *s == self@[key],
                None => !self@.contains_key(key),
            },
    {
        broadcast use vstd::std_specs::hash::group_hash_axioms;

        self.sessions.get(&key)
    }

    /// The session under `key`, made anew if there was none: idle, with an
    /// empty queue and full gain. Whatever the caller then does to the session
    /// is what the store holds under `key`; no other session is touched.
    pub fn get_or_create(&mut self, key: u64) -> (session: &mut SymphoData<H>)
        requires
            old(self).wf(),
        ensures
            session.wf(),
            old(self)@.contains_key(key) ==> *session == old(self)@[key],
            session@ == old(self).session(key),
            final(self)@ == old(self)@.insert(key, *final(session)),
    {
        broadcast use vstd::std_specs::hash::group_hash_axioms;

        assert(old(self)@.contains_key(key) ==> old(self)@[key].wf());
        self.sessions.entry(key).or_insert(SymphoData::new())
    }
}

/// Changing one session of a well-formed store into a well-formed session
/// leaves the store well formed, and every other session as it was.
pub proof fn lemma_update_keeps_store<H>(
    before: SymphoGlobal<H>,
    after: SymphoGlobal<H>,
    key: u64,
    session: SymphoData<H>,
)
    requires
        before.wf(),
        session.wf(),
        after@ == before@.insert(key, session),
    ensures
        after.wf(),
        after.same_but(&before, key),
        after@.contains_key(key),
        after@[key] == session,
{
    assert forall|k: u64| after@.contains_key(k) implies (#[trigger] after@[k]).wf() by {
        if k != key {
            assert(before@.contains_key(k));
            assert(before@[k].wf());
        }
    }
}

} // verus!
