//! Session lifecycle: one streaming task per connected viewer.
//!
//! The registry maps viewer ids to sessions, keys unique; insertion and
//! removal are the only operations meant to run under the registry's lock, so
//! each is a short, total operation. Removal is remove-if-present and
//! therefore idempotent: stopping twice, or concurrently with a session's own
//! self-eviction, leaves the registry consistent.

use vstd::prelude::*;
use crate::encoder::CompressedSample;
use crate::encoder::EncoderPipeline;
use crate::encoder::EngineError;
use crate::encoder::make_sample;
use crate::frame::Frame;

verus! {

/// The entry `start_session` inserts for a fresh id.
pub open spec fn starting_session(id: u128, sink: u64) -> Session {
    Session { id, state: SessionState::Starting, sink, pipeline: None }
}

/// Lifecycle of a session: `Starting -> Active -> Stopping -> Closed`, with
/// `Closed` terminal. The registry only ever stores `Starting` and `Active`
/// entries: stopping and closing coincide with removal.
#[derive(Clone, Copy, PartialEq, Eq, Structural, Debug)]
pub enum SessionState {
    Starting,
    Active,
    Stopping,
    Closed,
}

/// One viewer's streaming pipeline: identity, lifecycle state, the handle of
/// the viewer's output sink, and the exclusively owned encoder pipeline,
/// present exactly while the session is `Active`.
pub struct Session {
    pub id: u128,
    pub state: SessionState,
    pub sink: u64,
    pub pipeline: Option<EncoderPipeline>,
}

impl Session {
    pub open spec fn wf(self) -> bool {
        match self.state {
            SessionState::Starting => self.pipeline is None,
            SessionState::Active => self.pipeline is Some,
            _ => false,
        }
    }
}

/// The registry of live sessions, keyed by viewer id, keys unique.
pub struct SessionRegistry {
    sessions: Vec<Session>,
}

impl SessionRegistry {
    /// The stored sessions, in insertion order.
    pub closed spec fn entries(self) -> Seq<Session> {
        self.sessions@
    }

    pub open spec fn contains_sid(self, id: u128) -> bool {
        exists|i: int| 0 <= i < self.entries().len() && (#[trigger] self.entries()[i]).id == id
    }

    /// The stored session for `id`; meaningful only when `contains_sid(id)`.
    pub open spec fn session_of(self, id: u128) -> Session {
        self.entries()[choose|i: int|
            0 <= i < self.entries().len() && (#[trigger] self.entries()[i]).id == id]
    }

    /// The registry as a mapping from viewer id to session.
    pub open spec fn as_map(self) -> Map<u128, Session> {
        Map::new(|id: u128| self.contains_sid(id), |id: u128| self.session_of(id))
    }

    /// The number of tasks currently tracked; what the supervisor reads.
    pub open spec fn count_spec(self) -> nat {
        self.entries().len()
    }

    pub open spec fn wf(self) -> bool {
        &&& forall|i: int, j: int|
            0 <= i < j < self.entries().len() ==> (#[trigger] self.entries()[i]).id != (
            #[trigger] self.entries()[j]).id
        &&& forall|i: int| 0 <= i < self.entries().len() ==> (#[trigger] self.entries()[i]).wf()
    }

    /// In a registry with unique ids, any index holding `id` is the one
    /// `session_of` denotes.
    pub proof fn lemma_entry_at(self, i: int)
        requires
            self.wf(),
            0 <= i < self.entries().len(),
        ensures
            self.contains_sid(self.entries()[i].id),
            self.session_of(self.entries()[i].id) == self.entries()[i],
    {
        let id = self.entries()[i].id;
        assert(self.contains_sid(id));
        let j = choose|j: int|
            0 <= j < self.entries().len() && (#[trigger] self.entries()[j]).id == id;
        if i != j {
            if i < j {
                assert(self.entries()[i].id != self.entries()[j].id);
            } else {
                assert(self.entries()[j].id != self.entries()[i].id);
            }
        }
    }

    /// An empty registry.
    pub fn new() -> (r: SessionRegistry)
        ensures
            r.wf(),
            r.count_spec() == 0,
            r.as_map() == Map::<u128, Session>::empty(),
            forall|id: u128| !r.contains_sid(id),
    {
        let r = SessionRegistry { sessions: Vec::new() };
        proof {
            assert(r.as_map() =~= Map::<u128, Session>::empty());
        }
        r
    }

    /// `activeCount`: consistent with the set of tasks actually tracked; a
    /// self-evicted task is no longer counted.
    pub fn active_count(&self) -> (n: usize)
        ensures
            n == self.count_spec(),
    {
        self.sessions.len()
    }

    /// The position of `id`'s entry, if any.
    fn index_of(&self, id: u128) -> (r: Option<usize>)
        ensures
            match r {
                Some(i) => i < self.entries().len() && self.entries()[i as int].id == id,
                None => !self.contains_sid(id),
            },
    {
        let mut i: usize = 0;
        while i < self.sessions.len()
            invariant
                i <= self.entries().len(),
                forall|j: int| 0 <= j < i ==> (#[trigger] self.entries()[j]).id != id,
            decreases self.entries().len() - i,
        {
            if self.sessions[i].id == id {
                return Some(i);
            }
            i += 1;
        }
        None
    }

    /// Produces the index `session_of` denotes for a contained id.
    pub proof fn lemma_lookup(self, k: u128) -> (i: int)
        requires
            self.wf(),
            self.contains_sid(k),
        ensures
            0 <= i < self.entries().len(),
            self.entries()[i] == self.session_of(k),
            self.session_of(k).id == k,
    {
        let i = choose|i: int|
            0 <= i < self.entries().len() && (#[trigger] self.entries()[i]).id == k;
        self.lemma_entry_at(i);
        i
    }

    /// Appends a session whose id is fresh; the sole way entries are added.
    fn put(&mut self, s: Session)
        requires
            old(self).wf(),
            !old(self).contains_sid(s.id),
            s.wf(),
        ensures
            final(self).wf(),
            final(self).as_map() == old(self).as_map().insert(s.id, s),
            final(self).count_spec() == old(self).count_spec() + 1,
            final(self).contains_sid(s.id),
            final(self).session_of(s.id) == s,
            forall|k: u128| k != s.id ==> final(self).contains_sid(k) == old(self).contains_sid(k),
    {
        let ghost fresh = s;
        let ghost id = s.id;
        self.sessions.push(s);
        proof {
            let pre = *old(self);
            let n = pre.entries().len() as int;
            assert(self.entries() == pre.entries().push(fresh));
            assert(self.entries()[n] == fresh);
            assert forall|i: int| 0 <= i < n implies (#[trigger] self.entries()[i])
                == pre.entries()[i] by {}
            assert(self.wf());
            assert forall|k: u128| #[trigger] self.contains_sid(k) implies (pre.contains_sid(k)
                || k == id) by {
                let i = choose|i: int|
                    0 <= i < self.entries().len() && (#[trigger] self.entries()[i]).id == k;
                if i < n {
                    assert(pre.entries()[i].id == k);
                } else {
                    assert(self.entries()[i] == fresh);
                }
            }
            assert forall|k: u128| pre.contains_sid(k) implies #[trigger] self.contains_sid(k) by {
                let i = choose|i: int|
                    0 <= i < pre.entries().len() && (#[trigger] pre.entries()[i]).id == k;
                assert(self.entries()[i].id == k);
            }
            assert(self.contains_sid(id)) by {
                assert(self.entries()[n].id == id);
            }
            assert forall|k: u128| pre.contains_sid(k) && k != id implies #[trigger] self.session_of(
                k,
            ) == pre.session_of(k) by {
                let i = pre.lemma_lookup(k);
                assert(self.entries()[i].id == k);
                self.lemma_entry_at(i);
            }
            assert(self.session_of(id) == fresh) by {
                self.lemma_entry_at(n);
            }
            assert(self.as_map() =~= pre.as_map().insert(id, fresh));
        }
    }

    /// Removes and returns the entry at `i`; the sole way entries leave.
    fn take_at(&mut self, i: usize) -> (s: Session)
        requires
            old(self).wf(),
            i < old(self).entries().len(),
        ensures
            final(self).wf(),
            s == old(self).entries()[i as int],
            s.wf(),
            old(self).contains_sid(s.id),
            old(self).session_of(s.id) == s,
            final(self).as_map() == old(self).as_map().remove(s.id),
            final(self).count_spec() == old(self).count_spec() - 1,
            !final(self).contains_sid(s.id),
            forall|k: u128| k != s.id ==> final(self).contains_sid(k) == old(self).contains_sid(k),
            forall|k: u128|
                k != s.id && old(self).contains_sid(k) ==> final(self).session_of(k) == old(self).session_of(k),
    {
        proof {
            self.lemma_entry_at(i as int);
        }
        let s = self.sessions.remove(i);
        proof {
            let pre = *old(self);
            let n = pre.entries().len() as int;
            let ii = i as int;
            let sid = s.id;
            assert(self.entries() == pre.entries().remove(ii));
            assert(self.entries().len() == n - 1);
            assert forall|j: int| 0 <= j < ii implies #[trigger] self.entries()[j]
                == pre.entries()[j] by {}
            assert forall|j: int| ii <= j < n - 1 implies #[trigger] self.entries()[j]
                == pre.entries()[j + 1] by {}
            assert forall|a: int, b: int|
                0 <= a < b < self.entries().len() implies (#[trigger] self.entries()[a]).id != (
            #[trigger] self.entries()[b]).id by {
                let a2 = if a < ii { a } else { a + 1 };
                let b2 = if b < ii { b } else { b + 1 };
                assert(self.entries()[a] == pre.entries()[a2]);
                assert(self.entries()[b] == pre.entries()[b2]);
            }
            assert(self.wf());
            assert forall|k: u128| #[trigger] self.contains_sid(k) implies (pre.contains_sid(k)
                && k != sid) by {
                let j = choose|j: int|
                    0 <= j < self.entries().len() && (#[trigger] self.entries()[j]).id == k;
                let j2 = if j < ii { j } else { j + 1 };
                assert(pre.entries()[j2].id == k);
                if j2 < ii {
                    assert(pre.entries()[j2].id != pre.entries()[ii].id);
                } else {
                    assert(pre.entries()[ii].id != pre.entries()[j2].id);
                }
            }
            assert forall|k: u128| pre.contains_sid(k) && k != sid implies #[trigger] self.contains_sid(
                k,
            ) by {
                let j2 = pre.lemma_lookup(k);
                assert(j2 != ii);
                let j = if j2 < ii { j2 } else { j2 - 1 };
                assert(self.entries()[j].id == k);
            }
            assert forall|k: u128|
                k != sid && pre.contains_sid(k) implies #[trigger] self.session_of(k)
                == pre.session_of(k) by {
                let j2 = pre.lemma_lookup(k);
                assert(j2 != ii);
                let j = if j2 < ii { j2 } else { j2 - 1 };
                assert(self.entries()[j] == pre.entries()[j2]);
                self.lemma_entry_at(j);
            }
            assert(self.as_map() =~= pre.as_map().remove(sid));
        }
        s
    }

    /// Starts a session for `id`: inserts a `Starting` entry unless the id is
    /// already live, in which case the request is rejected and the existing
    /// session retained untouched.
    pub fn start_session(&mut self, id: u128, sink: u64) -> (r: Result<(), EngineError>)
        requires
            old(self).wf(),
        ensures
            final(self).wf(),
            old(self).contains_sid(id) ==> r == Err::<(), EngineError>(
                EngineError::DuplicateSessionId,
            ) && *final(self) == *old(self),
            !old(self).contains_sid(id) ==> r == Ok::<(), EngineError>(())
                && final(self).as_map() == old(self).as_map().insert(
                id,
                starting_session(id, sink),
            ) && final(self).count_spec() == old(self).count_spec() + 1
                && final(self).contains_sid(id),
    {
        if self.index_of(id).is_some() {
            return Err(EngineError::DuplicateSessionId);
        }
        self.put(Session { id, state: SessionState::Starting, sink, pipeline: None });
        Ok(())
    }

    /// Stops the session for `id`: remove-if-present, so the call is
    /// idempotent and safe to race with the session's own self-eviction.
    /// Returns whether a task was present and must now be cancelled.
    pub fn stop_session(&mut self, id: u128) -> (was_present: bool)
        requires
            old(self).wf(),
        ensures
            final(self).wf(),
            was_present == old(self).contains_sid(id),
            final(self).as_map() == old(self).as_map().remove(id),
            !final(self).contains_sid(id),
            forall|k: u128| k != id ==> final(self).contains_sid(k) == old(self).contains_sid(k),
            forall|k: u128|
                k != id && old(self).contains_sid(k) ==> final(self).session_of(k) == old(self).session_of(k),
            final(self).count_spec() == if old(self).contains_sid(id) {
                old(self).count_spec() - 1
            } else {
                old(self).count_spec() as int
            },
    {
        match self.index_of(id) {
            Some(i) => {
                proof {
                    self.lemma_entry_at(i as int);
                }
                let _ = self.take_at(i);
                true
            },
            None => {
                proof {
                    assert(self.as_map() =~= self.as_map().remove(id));
                }
                false
            },
        }
    }

    /// A sink write failed for `id`'s session (the peer is gone): the session
    /// transitions to `Closed` and self-evicts. Only that session is removed;
    /// every other session keeps its state and its pipeline.
    pub fn on_sink_failure(&mut self, id: u128)
        requires
            old(self).wf(),
        ensures
            final(self).wf(),
            final(self).as_map() == old(self).as_map().remove(id),
            !final(self).contains_sid(id),
            forall|k: u128| k != id ==> final(self).contains_sid(k) == old(self).contains_sid(k),
            forall|k: u128|
                k != id && old(self).contains_sid(k) ==> final(self).session_of(k) == old(self).session_of(k),
            final(self).count_spec() == if old(self).contains_sid(id) {
                old(self).count_spec() - 1
            } else {
                old(self).count_spec() as int
            },
    {
        let _ = self.stop_session(id);
    }

    /// The first frame became available to `id`'s task: builds that session's
    /// own encoder pipeline, sized to the frame, and moves it to `Active`.
    /// If the pipeline cannot be constructed only this session aborts and is
    /// removed.
    pub fn activate(&mut self, id: u128, frame: &Frame) -> (r: Result<(), EngineError>)
        requires
            old(self).wf(),
            frame.wf(),
        ensures
            final(self).wf(),
            !old(self).contains_sid(id) ==> r == Err::<(), EngineError>(
                EngineError::SessionNotFound,
            ) && *final(self) == *old(self),
            old(self).contains_sid(id) && old(self).session_of(id).state == SessionState::Active
                ==> r == Err::<(), EngineError>(EngineError::AlreadyActive) && *final(self) == *old(self),
            old(self).contains_sid(id) && old(self).session_of(id).state == SessionState::Starting
                ==> (r == Ok::<(), EngineError>(()) || r == Err::<(), EngineError>(
                EngineError::EncoderInitFailure,
            )),
            r == Ok::<(), EngineError>(()) ==> old(self).contains_sid(id) && final(self).contains_sid(id) && final(self).session_of(id).id == id && final(self).session_of(
                id,
            ).state == SessionState::Active && final(self).session_of(id).sink == old(self).session_of(id).sink && (final(self).session_of(id).pipeline matches Some(p)
                && p.width_spec() == frame@.width && p.height_spec() == frame@.height) && final(self).as_map().remove(id) == old(self).as_map().remove(id) && final(self).count_spec()
                == old(self).count_spec(),
            r == Err::<(), EngineError>(EngineError::EncoderInitFailure) ==> final(self).as_map()
                == old(self).as_map().remove(id) && final(self).count_spec() == old(self).count_spec() - 1,
    {
        let i = match self.index_of(id) {
            None => {
                return Err(EngineError::SessionNotFound);
            },
            Some(i) => i,
        };
        proof {
            self.lemma_entry_at(i as int);
        }
        match self.sessions[i].state {
            SessionState::Active => {
                return Err(EngineError::AlreadyActive);
            },
            _ => {},
        }
        let ghost pre = *self;
        let s = self.take_at(i);
        match EncoderPipeline::for_frame(frame) {
            Ok(p) => {
                let upgraded = Session {
                    id: s.id,
                    state: SessionState::Active,
                    sink: s.sink,
                    pipeline: Some(p),
                };
                self.put(upgraded);
                proof {
                    assert(self.as_map().remove(id) =~= pre.as_map().remove(id));
                }
                Ok(())
            },
            Err(e) => {
                // The session aborts: its entry stays removed.
                Err(e)
            },
        }
    }

    /// One 20 ms tick of `id`'s streaming task: encodes the given current
    /// frame into one sample tagged with the tick duration. An encode failure
    /// is non-retryable: the session self-evicts and every other session is
    /// untouched.
    pub fn session_tick(&mut self, id: u128, frame: &Frame) -> (r: Result<
        CompressedSample,
        EngineError,
    >)
        requires
            old(self).wf(),
            frame.wf(),
        ensures
            final(self).wf(),
            !old(self).contains_sid(id) ==> (r matches Err(e) && e == EngineError::SessionNotFound
                && *final(self) == *old(self)),
            old(self).contains_sid(id) && old(self).session_of(id).state == SessionState::Starting
                ==> (r matches Err(e) && e == EngineError::SessionNotActive && *final(self)
                == *old(self)),
            old(self).contains_sid(id) && old(self).session_of(id).state == SessionState::Active
                ==> (r is Ok || (r matches Err(e) && e == EngineError::EncodeFailure)),
            r matches Ok(smp) ==> old(self).contains_sid(id) && old(self).session_of(id).state
                == SessionState::Active && smp.duration_ms == crate::encoder::TICK_MILLIS && final(self).contains_sid(id) && final(self).session_of(id).state == SessionState::Active && final(self).session_of(id).sink == old(self).session_of(id).sink && final(self).as_map().remove(
                id,
            ) == old(self).as_map().remove(id) && final(self).count_spec() == old(self).count_spec(),
            (r matches Err(e) && e == EngineError::EncodeFailure) ==> final(self).as_map() == old(self).as_map().remove(id) && final(self).count_spec() == old(self).count_spec() - 1,
    {
        let i = match self.index_of(id) {
            None => {
                return Err(EngineError::SessionNotFound);
            },
            Some(i) => i,
        };
        proof {
            self.lemma_entry_at(i as int);
        }
        match self.sessions[i].state {
            SessionState::Starting => {
                return Err(EngineError::SessionNotActive);
            },
            _ => {},
        }
        let ghost pre = *self;
        let s = self.take_at(i);
        let Session { id: sid, state, sink, pipeline } = s;
        match pipeline {
            Some(mut p) => {
                match p.encode(frame) {
                    Ok(bytes) => {
                        let refreshed = Session {
                            id: sid,
                            state: SessionState::Active,
                            sink,
                            pipeline: Some(p),
                        };
                        self.put(refreshed);
                        proof {
                            assert(self.as_map().remove(id) =~= pre.as_map().remove(id));
                        }
                        Ok(make_sample(bytes))
                    },
                    Err(_) => {
                        // Non-retryable: the owning session stays removed.
                        Err(EngineError::EncodeFailure)
                    },
                }
            },
            None => {
                proof {
                    assert(false);
                }
                Err(EngineError::SessionNotFound)
            },
        }
    }

    /// Engine shutdown: every task is cancelled and the registry cleared.
    /// Returns the ids whose tasks the caller must now cancel, in insertion
    /// order.
    pub fn stop_all(&mut self) -> (stopped: Vec<u128>)
        requires
            old(self).wf(),
        ensures
            final(self).wf(),
            final(self).count_spec() == 0,
            final(self).as_map() == Map::<u128, Session>::empty(),
            forall|k: u128| !final(self).contains_sid(k),
            stopped@.len() == old(self).count_spec(),
            forall|j: int|
                0 <= j < stopped@.len() ==> stopped@[j] == old(self).entries()[j].id && old(self).contains_sid(stopped@[j]),
    {
        let mut stopped: Vec<u128> = Vec::new();
        let mut i: usize = 0;
        while i < self.sessions.len()
            invariant
                *self == *old(self),
                self.wf(),
                i <= self.entries().len(),
                stopped@.len() == i,
                forall|j: int| 0 <= j < i ==> stopped@[j] == self.entries()[j].id,
            decreases self.entries().len() - i,
        {
            stopped.push(self.sessions[i].id);
            i += 1;
        }
        proof {
            assert forall|j: int| 0 <= j < stopped@.len() implies old(self).contains_sid(
                stopped@[j],
            ) by {
                assert(old(self).entries()[j].id == stopped@[j]);
            }
        }
        self.sessions.clear();
        proof {
            assert(self.as_map() =~= Map::<u128, Session>::empty());
        }
        stopped
    }
}

/// What a batch of start requests, applied in order to a registry model,
/// leaves behind: each request inserts its `Starting` entry.
pub open spec fn after_starts(m: Map<u128, Session>, reqs: Seq<(u128, u64)>) -> Map<u128, Session>
    decreases reqs.len(),
{
    if reqs.len() == 0 {
        m
    } else {
        after_starts(m.insert(reqs[0].0, starting_session(reqs[0].0, reqs[0].1)), reqs.drop_first())
    }
}

/// Any number of start requests with distinct ids, none already live, all
/// succeed regardless of interleaving: afterwards every requested id has a
/// `Starting` entry, ids outside the batch are untouched, and the active
/// count has grown by exactly the number of requests.
pub proof fn lemma_concurrent_starts(m: Map<u128, Session>, reqs: Seq<(u128, u64)>)
    requires
        m.dom().finite(),
        forall|i: int, j: int|
            0 <= i < j < reqs.len() ==> (#[trigger] reqs[i]).0 != (#[trigger] reqs[j]).0,
        forall|i: int| 0 <= i < reqs.len() ==> !m.dom().contains((#[trigger] reqs[i]).0),
    ensures
        after_starts(m, reqs).dom().finite(),
        after_starts(m, reqs).dom().len() == m.dom().len() + reqs.len(),
        forall|i: int|
            0 <= i < reqs.len() ==> after_starts(m, reqs).contains_key((#[trigger] reqs[i]).0)
                && after_starts(m, reqs)[reqs[i].0] == starting_session(reqs[i].0, reqs[i].1),
        forall|k: u128| #![trigger after_starts(m, reqs).contains_key(k)]
            !(exists|i: int| 0 <= i < reqs.len() && (#[trigger] reqs[i]).0 == k) ==> (after_starts(
                m,
                reqs,
            ).contains_key(k) == m.contains_key(k) && (m.contains_key(k) ==> after_starts(m, reqs)[k]
                == m[k])),
    decreases reqs.len(),
{
    broadcast use vstd::set::axiom_set_insert_len;

    if reqs.len() == 0 {
    } else {
        let id0 = reqs[0].0;
        let m1 = m.insert(id0, starting_session(id0, reqs[0].1));
        let rest = reqs.drop_first();
        assert(!m.dom().contains(id0));
        assert(m1.dom() == m.dom().insert(id0));
        assert(m1.dom().len() == m.dom().len() + 1);
        assert forall|i: int, j: int|
            0 <= i < j < rest.len() implies (#[trigger] rest[i]).0 != (#[trigger] rest[j]).0 by {
            assert(rest[i] == reqs[i + 1]);
            assert(rest[j] == reqs[j + 1]);
        }
        assert forall|i: int| 0 <= i < rest.len() implies !m1.dom().contains(
            (#[trigger] rest[i]).0,
        ) by {
            assert(rest[i] == reqs[i + 1]);
            assert(reqs[0].0 != reqs[i + 1].0);
        }
        lemma_concurrent_starts(m1, rest);
        assert(after_starts(m, reqs) == after_starts(m1, rest));
        assert forall|i: int|
            0 <= i < reqs.len() implies after_starts(m, reqs).contains_key((#[trigger] reqs[i]).0)
            && after_starts(m, reqs)[reqs[i].0] == starting_session(reqs[i].0, reqs[i].1) by {
            if i == 0 {
                assert(!(exists|j: int| 0 <= j < rest.len() && (#[trigger] rest[j]).0 == id0)) by {
                    if exists|j: int| 0 <= j < rest.len() && (#[trigger] rest[j]).0 == id0 {
                        let j = choose|j: int| 0 <= j < rest.len() && (#[trigger] rest[j]).0 == id0;
                        assert(rest[j] == reqs[j + 1]);
                        assert(reqs[0].0 != reqs[j + 1].0);
                    }
                }
                assert(m1.contains_key(id0));
                assert(after_starts(m1, rest).contains_key(id0) == m1.contains_key(id0));
                assert(after_starts(m1, rest)[id0] == m1[id0]);
                assert(m1[id0] == starting_session(reqs[0].0, reqs[0].1));
            } else {
                assert(rest[i - 1] == reqs[i]);
                assert(after_starts(m1, rest).contains_key(rest[i - 1].0));
                assert(after_starts(m1, rest)[rest[i - 1].0] == starting_session(
                    rest[i - 1].0,
                    rest[i - 1].1,
                ));
            }
        }
        assert forall|k: u128|
            !(exists|i: int| 0 <= i < reqs.len() && (#[trigger] reqs[i]).0 == k) implies (
        after_starts(m, reqs).contains_key(k) == m.contains_key(k) && (m.contains_key(k)
            ==> after_starts(m, reqs)[k] == m[k])) by {
            assert(0 <= 0 < reqs.len() && reqs[0].0 == reqs[0].0);
            assert(reqs[0].0 != k);
            assert(!(exists|i: int| 0 <= i < rest.len() && (#[trigger] rest[i]).0 == k)) by {
                if exists|i: int| 0 <= i < rest.len() && (#[trigger] rest[i]).0 == k {
                    let i = choose|i: int| 0 <= i < rest.len() && (#[trigger] rest[i]).0 == k;
                    assert(rest[i] == reqs[i + 1]);
                }
            }
            assert(after_starts(m1, rest).contains_key(k) == m1.contains_key(k));
            assert(m1.contains_key(k) ==> after_starts(m1, rest)[k] == m1[k]);
            assert(m1.contains_key(k) == m.contains_key(k));
            assert(m.contains_key(k) ==> m1[k] == m[k]);
        }
    }
}

/// The active count is exactly the number of live viewer ids: the map the
/// contracts speak of and the count the supervisor reads cannot drift apart.
pub proof fn lemma_count_matches_map(r: SessionRegistry)
    requires
        r.wf(),
    ensures
        r.as_map().dom().finite(),
        r.as_map().dom().len() == r.count_spec(),
{
    let ids = r.entries().map_values(|s: Session| s.id);
    assert(ids.no_duplicates()) by {
        assert forall|i: int, j: int|
            0 <= i < ids.len() && 0 <= j < ids.len() && i != j implies ids[i] != ids[j] by {
            if i < j {
                assert(r.entries()[i].id != r.entries()[j].id);
            } else {
                assert(r.entries()[j].id != r.entries()[i].id);
            }
        }
    }
    assert(r.as_map().dom() =~= ids.to_set()) by {
        broadcast use vstd::seq_lib::group_seq_properties;

        assert forall|k: u128| r.as_map().dom().contains(k) implies ids.to_set().contains(k) by {
            let i = r.lemma_lookup(k);
            assert(ids[i] == k);
        }
        assert forall|k: u128| ids.to_set().contains(k) implies r.as_map().dom().contains(k) by {
            let i = choose|i: int| 0 <= i < ids.len() && ids[i] == k;
            assert(r.entries()[i].id == k);
        }
    }
    ids.unique_seq_to_set();
    broadcast use vstd::seq_lib::seq_to_set_is_finite;
    assert(ids.to_set().finite());
}

/// A sink write failure for one session removes only that session: every
/// other id keeps exactly the session it had, pipeline and all, and keeps
/// receiving samples.
pub proof fn lemma_failure_isolation(m: Map<u128, Session>, failed: u128, other: u128)
    requires
        other != failed,
    ensures
        m.remove(failed).contains_key(other) == m.contains_key(other),
        m.contains_key(other) ==> m.remove(failed)[other] == m[other],
{
}

/// A start for an id followed by a stop for it, in any interleaving with the
/// session's own self-eviction, leaves no entry for the id; the repeated
/// removal the race produces is harmless.
pub proof fn lemma_stop_after_start(m: Map<u128, Session>, id: u128, s: Session)
    ensures
        !m.insert(id, s).remove(id).contains_key(id),
        !m.remove(id).contains_key(id),
        m.remove(id).remove(id) == m.remove(id),
        !m.contains_key(id) ==> m.insert(id, s).remove(id) == m,
{
    assert(m.remove(id).remove(id) =~= m.remove(id));
    if !m.contains_key(id) {
        assert(m.insert(id, s).remove(id) =~= m);
    }
}

} // verus!
