//! The record of closed sessions: what each left behind when it closed,
//! its final status and diagnostics, kept under its session id so that both
//! can still be read once the session itself is gone.

use vstd::prelude::*;

use crate::runtime_model::{SessionDiagnosticsSnapshot, SessionStatusSnapshot};
use crate::session_options::same_text;
use crate::session_runtime::ManagerError;
use crate::session_state::{counter_at, spec_counter_name, SessionState, COUNTER_COUNT};

verus! {

/// `status` is the status of `state`: its lifecycle, identity, and as
/// warnings the error its backend last reported.
pub open spec fn is_status_of(status: SessionStatusSnapshot, state: SessionState) -> bool {
    &&& status.state == state.lifecycle
    &&& status.session_id == Some(state.session_id)
    &&& status.profile_id matches Some(id) && id@ == state.profile_id@
    &&& match state.last_backend_diagnostics {
        Some(diagnostics) => match diagnostics.last_error {
            Some(error) => status.warnings@.len() == 1 && status.warnings@[0]@ == error@,
            None => status.warnings@.len() == 0,
        },
        None => status.warnings@.len() == 0,
    }
}

/// `diagnostics` are those of `state`: its last error and every counter
/// under its name, in reporting order.
pub open spec fn is_diagnostics_of(diagnostics: SessionDiagnosticsSnapshot, state: SessionState) -> bool {
    &&& diagnostics.session_id == Some(state.session_id)
    &&& same_text(diagnostics.last_error, state.last_error)
    &&& diagnostics.counters@.len() == COUNTER_COUNT
    &&& forall|i: int|
        0 <= i < COUNTER_COUNT ==> {
            &&& (#[trigger] diagnostics.counters@[i]).0@ == spec_counter_name(counter_at(i))
            &&& diagnostics.counters@[i].1 == state.counter(counter_at(i))
        }
}

/// What a closed session left behind.
pub struct ArchivedSession {
    pub status: SessionStatusSnapshot,
    pub diagnostics: SessionDiagnosticsSnapshot,
}

/// The archive as a map from session id to what that session left; a
/// later entry for the same id replaces an earlier one.
pub open spec fn archived_map(entries: Seq<(u64, ArchivedSession)>) -> Map<u64, ArchivedSession>
    decreases entries.len(),
{
    if entries.len() == 0 {
        Map::empty()
    } else {
        archived_map(entries.drop_last()).insert(entries.last().0, entries.last().1)
    }
}

/// When no entry from `from` on is kept under `id`, the archive holds for
/// `id` what the entries before `from` hold.
proof fn lemma_later_entries_keep(entries: Seq<(u64, ArchivedSession)>, from: int, id: u64)
    requires
        0 <= from <= entries.len(),
        forall|j: int| from <= j < entries.len() ==> (#[trigger] entries[j]).0 != id,
    ensures
        archived_map(entries).contains_key(id) == archived_map(entries.subrange(0, from)).contains_key(
            id,
        ),
        archived_map(entries).contains_key(id) ==> archived_map(entries)[id] == archived_map(
            entries.subrange(0, from),
        )[id],
    decreases entries.len(),
{
    if entries.len() > from {
        assert(entries.last() == entries[entries.len() - 1]);
        assert(entries.drop_last().subrange(0, from) =~= entries.subrange(0, from));
        assert forall|j: int| from <= j < entries.drop_last().len() implies (
        #[trigger] entries.drop_last()[j]).0 != id by {
            assert(entries.drop_last()[j] == entries[j]);
        }
        lemma_later_entries_keep(entries.drop_last(), from, id);
    } else {
        assert(entries.subrange(0, from) =~= entries);
    }
}

/// The sessions closed so far.
pub struct SessionArchive {
    entries: Vec<(u64, ArchivedSession)>,
}

impl View for SessionArchive {
    type V = Map<u64, ArchivedSession>;

    closed spec fn view(&self) -> Map<u64, ArchivedSession> {
        archived_map(self.entries@)
    }
}

impl SessionArchive {
    /// An archive of no session.
    pub fn new() -> (archive: Self)
        ensures
            archive@ == Map::<u64, ArchivedSession>::empty(),
    {
        SessionArchive { entries: Vec::new() }
    }

    /// Keep the final status and diagnostics of the session `state`
    /// describes under its id, replacing what an earlier close of the same
    /// id left.
    pub fn archive(&mut self, state: &SessionState)
        requires
            state.wf(),
        ensures
            final(self)@.dom() == old(self)@.dom().insert(state.session_id),
            forall|id: u64|
                id != state.session_id && #[trigger] old(self)@.contains_key(id) ==> final(self)@[id]
                    == old(self)@[id],
            is_status_of(final(self)@[state.session_id].status, *state),
            is_diagnostics_of(final(self)@[state.session_id].diagnostics, *state),
    {
        let archived = ArchivedSession {
            status: state.status_snapshot(),
            diagnostics: state.diagnostics_snapshot(),
        };
        let ghost before = self.entries@;
        self.entries.push((state.session_id, archived));
        assert(self.entries@.drop_last() =~= before);
        assert(archived_map(self.entries@).dom() =~= archived_map(before).dom().insert(
            state.session_id,
        ));
    }

    /// What the session `session_id` left when it closed, if it has.
    pub fn archived(&self, session_id: u64) -> (found: Option<&ArchivedSession>)
        ensures
            found is Some <==> self@.contains_key(session_id),
            found matches Some(archived) ==> *archived == self@[session_id],
    {
        let mut index: usize = self.entries.len();
        while index > 0
            invariant
                index <= self.entries@.len(),
                forall|j: int| index <= j < self.entries@.len() ==> (#[trigger] self.entries@[j]).0
                    != session_id,
            decreases index,
        {
            let entry = &self.entries[index - 1];
            if entry.0 == session_id {
                proof {
                    let upto = self.entries@.subrange(0, index as int);
                    lemma_later_entries_keep(self.entries@, index as int, session_id);
                    assert(upto.drop_last() =~= self.entries@.subrange(0, index - 1));
                    assert(upto.last() == self.entries@[index - 1]);
                }
                return Some(&entry.1);
            }
            index = index - 1;
        }
        proof {
            lemma_later_entries_keep(self.entries@, 0, session_id);
            assert(self.entries@.subrange(0, 0) =~= Seq::<(u64, ArchivedSession)>::empty());
        }
        None
    }
}

proof fn lemma_push_contains(s: Seq<u64>, a: u64, x: u64)
    ensures
        s.push(a).contains(x) == (s.contains(x) || x == a),
{
    if s.contains(x) {
        let i = choose|i: int| 0 <= i < s.len() && s[i] == x;
        assert(s.push(a)[i] == x);
    }
    if x == a {
        assert(s.push(a)[s.len() as int] == a);
    }
    if s.push(a).contains(x) {
        let i = choose|i: int| 0 <= i < s.len() + 1 && s.push(a)[i] == x;
        if i < s.len() {
            assert(s[i] == x);
        }
    }
}

/// The sessions a manager knows: the active ones by id, and what each
/// closed session left behind.
pub struct SessionRegistry {
    active: Vec<u64>,
    archive: SessionArchive,
}

impl SessionRegistry {
    /// The ids of the active sessions.
    pub closed spec fn active(&self) -> Set<u64> {
        self.active@.to_set()
    }

    /// What each closed session left, by id.
    pub closed spec fn archived_sessions(&self) -> Map<u64, ArchivedSession> {
        self.archive@
    }

    /// A registry of no session.
    pub fn new() -> (registry: Self)
        ensures
            registry.active() == Set::<u64>::empty(),
            registry.archived_sessions() == Map::<u64, ArchivedSession>::empty(),
    {
        let registry = SessionRegistry { active: Vec::new(), archive: SessionArchive::new() };
        assert(registry.active@.to_set() =~= Set::<u64>::empty());
        registry
    }

    fn position(&self, session_id: u64) -> (found: Option<usize>)
        ensures
            match found {
                Some(index) => index < self.active@.len() && self.active@[index as int] == session_id,
                None => !self.active@.contains(session_id),
            },
    {
        let mut index: usize = 0;
        while index < self.active.len()
            invariant
                index <= self.active@.len(),
                forall|j: int| 0 <= j < index ==> self.active@[j] != session_id,
            decreases self.active@.len() - index,
        {
            if self.active[index] == session_id {
                return Some(index);
            }
            index = index + 1;
        }
        None
    }

    /// The session `session_id` is active.
    pub fn is_active(&self, session_id: u64) -> (active: bool)
        ensures
            active == self.active().contains(session_id),
    {
        self.position(session_id).is_some()
    }

    /// The ids of the active sessions, for starting a session against.
    pub fn active_ids(&self) -> (ids: Vec<u64>)
        ensures
            ids@.to_set() == self.active(),
    {
        self.active.clone()
    }

    /// Record a started session as active; a session with the same id
    /// already active is refused.
    pub fn register(&mut self, session_id: u64) -> (result: Result<(), ManagerError>)
        ensures
            old(self).active().contains(session_id) ==> result == Err::<(), ManagerError>(
                ManagerError::SessionAlreadyActive { session_id },
            ) && final(self).active() == old(self).active(),
            !old(self).active().contains(session_id) ==> result is Ok && final(self).active()
                == old(self).active().insert(session_id),
            final(self).archived_sessions() == old(self).archived_sessions(),
    {
        if self.position(session_id).is_some() {
            return Err(ManagerError::SessionAlreadyActive { session_id });
        }
        let ghost before = self.active@;
        self.active.push(session_id);
        proof {
            assert forall|x: u64| self.active@.to_set().contains(x) == before.to_set().insert(session_id).contains(x) by {
                lemma_push_contains(before, session_id, x);
            }
            assert(self.active@.to_set() =~= before.to_set().insert(session_id));
        }
        Ok(())
    }

    /// Close the active session `state` describes: it is no longer active,
    /// and its final status and diagnostics are archived under its id. A
    /// session that is not active is not found.
    pub fn close(&mut self, state: &SessionState) -> (result: Result<(), ManagerError>)
        requires
            state.wf(),
        ensures
            !old(self).active().contains(state.session_id) ==> {
                &&& result == Err::<(), ManagerError>(
                    ManagerError::SessionNotFound { session_id: state.session_id },
                )
                &&& final(self).active() == old(self).active()
                &&& final(self).archived_sessions() == old(self).archived_sessions()
            },
            old(self).active().contains(state.session_id) ==> {
                &&& result is Ok
                &&& final(self).active() == old(self).active().remove(state.session_id)
                &&& final(self).archived_sessions().dom() == old(self).archived_sessions().dom().insert(
                    state.session_id,
                )
                &&& forall|id: u64|
                    id != state.session_id && #[trigger] old(self).archived_sessions().contains_key(id)
                        ==> final(self).archived_sessions()[id] == old(self).archived_sessions()[id]
                &&& is_status_of(final(self).archived_sessions()[state.session_id].status, *state)
                &&& is_diagnostics_of(
                    final(self).archived_sessions()[state.session_id].diagnostics,
                    *state,
                )
            },
    {
        let found = self.position(state.session_id);
        match found {
            None => Err(ManagerError::SessionNotFound { session_id: state.session_id }),
            Some(_) => {
                let ghost before = self.active@;
                let mut kept: Vec<u64> = Vec::new();
                let mut index: usize = 0;
                while index < self.active.len()
                    invariant
                        index <= self.active@.len(),
                        self.active@ == before,
                        forall|x: u64| kept@.contains(x) <==> (x != state.session_id && before.subrange(0, index as int).contains(x)),
                    decreases self.active@.len() - index,
                {
                    let id = self.active[index];
                    let ghost prefix = before.subrange(0, index as int + 1);
                    let ghost kept_before = kept@;
                    let ghost earlier = before.subrange(0, index as int);
                    assert(id == before[index as int]);
                    assert(prefix =~= earlier.push(id));
                    if id != state.session_id {
                        kept.push(id);
                    }
                    index = index + 1;
                    assert(before.subrange(0, index as int) =~= prefix);
                    assert forall|x: u64| kept@.contains(x) <==> (x != state.session_id && before.subrange(0, index as int).contains(x)) by {
                        lemma_push_contains(earlier, id, x);
                        lemma_push_contains(kept_before, id, x);
                    }
                }
                assert(before.subrange(0, before.len() as int) =~= before);
                self.active = kept;
        proof {
                    assert(self.active@.to_set() =~= before.to_set().remove(state.session_id));
        }
                self.archive.archive(state);
                Ok(())
            },
        }
    }

    /// What the closed session `session_id` left, if it has closed.
    pub fn archived(&self, session_id: u64) -> (found: Option<&ArchivedSession>)
        ensures
            found is Some <==> self.archived_sessions().contains_key(session_id),
            found matches Some(archived) ==> *archived == self.archived_sessions()[session_id],
    {
        self.archive.archived(session_id)
    }
}

} // verus!
