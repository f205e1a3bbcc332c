//! The shutdown coordinator: a registry of per-source cancellation and
//! acknowledgement state, keyed by component key. The coordinator only
//! signals and reports; it never terminates a task itself. Waiting on a
//! deadline is the caller's loop: it signals with `begin_shutdown`,
//! lets the task acknowledge, and reads the outcome with
//! `shutdown_complete`.

use vstd::prelude::*;

verus! {

/// Where one registered source stands in its shutdown handshake.
#[derive(Clone, Copy, PartialEq, Eq, Structural, Debug)]
pub enum EntryState {
    /// Registered and running; no cancellation signal sent yet.
    Active,
    /// The cancellation signal was sent; no acknowledgement yet.
    SignalSent,
    /// The acknowledgement arrived; it is sent at most once per lifetime.
    Acked,
}

/// One registry entry: the coordinator's half of the handshake for one
/// running source.
pub struct ShutdownEntry {
    pub id: String,
    pub state: EntryState,
}

/// What a source receives on registration: its key into the registry,
/// standing for the signal-receiving and acknowledgement-sending halves.
pub struct ShutdownHandle {
    pub id: String,
}

/// Registering an identifier whose earlier registration is still active
/// fails with this error.
#[derive(Clone, Copy, PartialEq, Eq, Structural, Debug)]
pub struct AlreadyRegistered;

/// Process-scoped registry of per-source shutdown state. Constructed
/// once by the topology owner; no hidden global state.
pub struct ShutdownCoordinator {
    entries: Vec<ShutdownEntry>,
}

/// Whether some entry carries this identifier.
pub open spec fn contains_id(s: Seq<(Seq<char>, EntryState)>, id: Seq<char>) -> bool {
    exists|i: int| 0 <= i < s.len() && s[i].0 == id
}

/// Whether an entry with this identifier is still live: registered and
/// not yet acknowledged as stopped.
pub open spec fn active_in(s: Seq<(Seq<char>, EntryState)>, id: Seq<char>) -> bool {
    exists|i: int| 0 <= i < s.len() && s[i].0 == id && s[i].1 != EntryState::Acked
}

/// Whether this identifier's entry holds an acknowledgement.
pub open spec fn acked_in(s: Seq<(Seq<char>, EntryState)>, id: Seq<char>) -> bool {
    exists|i: int| 0 <= i < s.len() && s[i].0 == id && s[i].1 == EntryState::Acked
}

/// The position of this identifier's entry (unique under `wf`).
pub open spec fn id_index(s: Seq<(Seq<char>, EntryState)>, id: Seq<char>) -> int {
    choose|i: int| 0 <= i < s.len() && s[i].0 == id
}

impl View for ShutdownCoordinator {
    type V = Seq<(Seq<char>, EntryState)>;

    closed spec fn view(&self) -> Seq<(Seq<char>, EntryState)> {
        self.entries@.map_values(|e: ShutdownEntry| (e.id@, e.state))
    }
}

impl ShutdownCoordinator {
    /// No two entries share an identifier: a component key has at most
    /// one live registration at any instant.
    pub open spec fn wf(&self) -> bool {
        forall|i: int, j: int| 0 <= i < j < self@.len() ==> self@[i].0 != self@[j].0
    }

    /// An empty registry.
    pub fn new() -> (r: ShutdownCoordinator)
        ensures
            r@ == Seq::<(Seq<char>, EntryState)>::empty(),
            r.wf(),
    {
        let c = ShutdownCoordinator { entries: Vec::new() };
        proof {
            assert(c@ =~= Seq::<(Seq<char>, EntryState)>::empty());
        }
        c
    }

    /// The position of this identifier's entry, if one stands.
    fn find_index(&self, id: &String) -> (r: Option<usize>)
        ensures
            match r {
                Some(i) => i < self@.len() && self@[i as int].0 == id@,
                None => !contains_id(self@, id@),
            },
    {
        let mut i: usize = 0;
        while i < self.entries.len()
            invariant
                i <= self.entries@.len(),
                self@.len() == self.entries@.len(),
                forall|j: int| 0 <= j < i ==> self@[j].0 != id@,
                forall|j: int|
                    0 <= j < self.entries@.len() ==> self@[j].0 == self.entries@[j].id@,
            decreases self.entries@.len() - i,
        {
            if self.entries[i].id == *id {
                return Some(i);
            }
            i = i + 1;
        }
        None
    }

    /// Register a source when it starts. Fails, leaving the registry
    /// exactly as it was, while an earlier registration of the same
    /// identifier is still live; a fully acknowledged entry may be
    /// registered anew.
    pub fn register(&mut self, id: String) -> (r: Result<ShutdownHandle, AlreadyRegistered>)
        requires
            old(self).wf(),
        ensures
            final(self).wf(),
            active_in(old(self)@, id@) ==> r is Err && final(self)@ == old(self)@,
            !active_in(old(self)@, id@) && contains_id(old(self)@, id@) ==> r is Ok && final(self)@
                =~= old(self)@.update(id_index(old(self)@, id@), (id@, EntryState::Active)),
            !contains_id(old(self)@, id@) ==> r is Ok && final(self)@ =~= old(self)@.push(
                (id@, EntryState::Active),
            ),
            r matches Ok(h) ==> h.id@ == id@,
    {
        let ghost pre = self@;
        match self.find_index(&id) {
            Some(i) => {
                proof {
                    assert(self.entries@[i as int].id@ == id@);
                }
                if matches!(self.entries[i].state, EntryState::Acked) {
                    proof {
                        assert(!active_in(pre, id@));
                        assert(i as int == id_index(pre, id@));
                    }
                    let handle_id = id.clone();
                    self.entries.remove(i);
                    self.entries.insert(i, ShutdownEntry { id, state: EntryState::Active });
                    proof {
                        assert(self@ =~= pre.update(i as int, (pre[i as int].0, EntryState::Active)));
                        assert(self@ =~= pre.update(id_index(pre, id@), (id@, EntryState::Active)));
                    }
                    Ok(ShutdownHandle { id: handle_id })
                } else {
                    proof {
                        assert(active_in(pre, id@));
                    }
                    Err(AlreadyRegistered)
                }
            },
            None => {
                let handle_id = id.clone();
                self.entries.push(ShutdownEntry { id, state: EntryState::Active });
                proof {
                    assert(self@ =~= pre.push((id@, EntryState::Active)));
                    assert(forall|i: int, j: int|
                        0 <= i < j < self@.len() ==> self@[i].0 != self@[j].0);
                }
                Ok(ShutdownHandle { id: handle_id })
            },
        }
    }

    /// Send the cancellation signal to one source. Returns whether the
    /// source had already acknowledged, in which case there is nothing
    /// to wait for. Signalling an identifier twice, or one that is not
    /// registered, changes nothing.
    pub fn begin_shutdown(&mut self, id: &String) -> (r: bool)
        requires
            old(self).wf(),
        ensures
            final(self).wf(),
            r == acked_in(old(self)@, id@),
            !contains_id(old(self)@, id@) ==> final(self)@ == old(self)@,
            contains_id(old(self)@, id@) ==> final(self)@ =~= old(self)@.update(
                id_index(old(self)@, id@),
                (
                    id@,
                    if old(self)@[id_index(old(self)@, id@)].1 == EntryState::Active {
                        EntryState::SignalSent
                    } else {
                        old(self)@[id_index(old(self)@, id@)].1
                    },
                ),
            ),
    {
        let ghost pre = self@;
        match self.find_index(id) {
            None => false,
            Some(i) => {
                proof {
                    assert(i as int == id_index(pre, id@));
                }
                let acked = matches!(self.entries[i].state, EntryState::Acked);
                proof {
                    assert(acked == acked_in(pre, id@));
                }
                if matches!(self.entries[i].state, EntryState::Active) {
                    let entry = self.entries.remove(i);
                    self.entries.insert(
                        i,
                        ShutdownEntry { id: entry.id, state: EntryState::SignalSent },
                    );
                    proof {
                        assert(self@ =~= pre.update(i as int, (id@, EntryState::SignalSent)));
                    }
                } else {
                    proof {
                        assert(self@ =~= pre.update(i as int, (id@, pre[i as int].1)));
                    }
                }
                acked
            },
        }
    }

    /// Record one source's completion acknowledgement. Returns whether
    /// this was the first acknowledgement of this registration: it is
    /// sent at most once per source lifetime.
    pub fn acknowledge(&mut self, id: &String) -> (r: bool)
        requires
            old(self).wf(),
        ensures
            final(self).wf(),
            r == (contains_id(old(self)@, id@) && old(self)@[id_index(old(self)@, id@)].1
                != EntryState::Acked),
            contains_id(old(self)@, id@) ==> final(self)@ =~= old(self)@.update(
                id_index(old(self)@, id@),
                (id@, EntryState::Acked),
            ),
            !contains_id(old(self)@, id@) ==> final(self)@ == old(self)@,
    {
        let ghost pre = self@;
        match self.find_index(id) {
            None => false,
            Some(i) => {
                proof {
                    assert(i as int == id_index(pre, id@));
                }
                let first = !matches!(self.entries[i].state, EntryState::Acked);
                let entry = self.entries.remove(i);
                self.entries.insert(i, ShutdownEntry { id: entry.id, state: EntryState::Acked });
                proof {
                    assert(self@ =~= pre.update(i as int, (id@, EntryState::Acked)));
                }
                first
            },
        }
    }

    /// Whether this source's shutdown has completed: the outcome that
    /// `shutdown_source` reports when its deadline wait ends. True once
    /// the acknowledgement arrived; calls after that stay true.
    pub fn shutdown_complete(&self, id: &String) -> (r: bool)
        requires
            self.wf(),
        ensures
            r == acked_in(self@, id@),
    {
        match self.find_index(id) {
            None => false,
            Some(i) => {
                proof {
                    assert(i as int == id_index(self@, id@));
                }
                matches!(self.entries[i].state, EntryState::Acked)
            },
        }
    }
}

/// Law: an acknowledged entry is stable. Once the acknowledgement is
/// in, the entry's state is `Acked`, and the transition that
/// `begin_shutdown` or `acknowledge` writes for this identifier leaves
/// the registry exactly as it is: calls after a true acknowledgement
/// are idempotent no-ops reporting true.
pub proof fn lemma_ack_is_stable(s: Seq<(Seq<char>, EntryState)>, id: Seq<char>)
    requires
        acked_in(s, id),
        forall|i: int, j: int| 0 <= i < j < s.len() ==> s[i].0 != s[j].0,
    ensures
        0 <= id_index(s, id) < s.len(),
        s[id_index(s, id)].1 == EntryState::Acked,
        s.update(id_index(s, id), (id, s[id_index(s, id)].1)) =~= s,
        s.update(id_index(s, id), (id, EntryState::Acked)) =~= s,
{
    let j = choose|j: int| 0 <= j < s.len() && s[j].0 == id && s[j].1 == EntryState::Acked;
    let i = id_index(s, id);
    assert(0 <= i < s.len() && s[i].0 == id);
    assert(i == j);
}

} // verus!
