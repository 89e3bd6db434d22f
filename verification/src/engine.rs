//! The engine: explicit shared handles to the session registry and the frame
//! source, the dispatch of bus commands onto them, and the supervisor step.
//!
//! Nothing here is a global singleton: the engine is constructed once and
//! passed to whatever drives it, so several engines can exist side by side.

use vstd::prelude::*;
use crate::command::Command;
use crate::encoder::EngineError;
use crate::session::SessionRegistry;
use crate::session::after_starts;
use crate::session::lemma_concurrent_starts;
use crate::session::lemma_count_matches_map;
use crate::session::starting_session;
use crate::source::FrameSource;
use crate::supervisor::PowerAction;
use crate::supervisor::lemma_power_follows_count;
use crate::supervisor::reconcile;
use crate::supervisor::spec_apply;
use crate::supervisor::spec_reconcile;

verus! {

/// What the driver must do after the engine handled a command.
#[derive(Clone, Copy, PartialEq, Eq, Structural, Debug)]
pub enum Effect {
    /// Spawn the streaming task for this new session.
    SpawnStream { id: u128, sink: u64 },
    /// Cancel the removed session's task.
    CancelStream { id: u128 },
    /// Hand the control components to the external actuation handler.
    ActuateMotors { x_bits: u32, y_bits: u32 },
    /// Nothing to do.
    NoEffect,
}

/// The core's shared state: the registry of streaming sessions and the frame
/// source they all read.
pub struct Engine {
    pub registry: SessionRegistry,
    pub source: FrameSource,
}

impl Engine {
    pub open spec fn wf(self) -> bool {
        &&& self.registry.wf()
        &&& self.source.wf()
    }

    /// A fresh engine: no sessions, camera off and untouched.
    pub fn new() -> (r: Engine)
        ensures
            r.wf(),
            r.registry.count_spec() == 0,
            forall|id: u128| !r.registry.contains_sid(id),
            !r.source.powered_spec(),
            !r.source.camera_failed(),
            r.source.current_view() is None,
    {
        Engine { registry: SessionRegistry::new(), source: FrameSource::new() }
    }

    /// Consumes one bus command. Starting is refused while the camera is
    /// unavailable and for an id that is already live — in the latter case
    /// the existing session is retained untouched. Stopping is idempotent.
    /// Actuation commands are relayed; peer registration changes nothing.
    /// The frame source is never touched here.
    pub fn handle_command(&mut self, cmd: &Command) -> (r: Result<Effect, EngineError>)
        requires
            old(self).wf(),
        ensures
            final(self).wf(),
            final(self).source == old(self).source,
            *cmd matches Command::StartSession { id, sink } ==> {
                &&& old(self).source.camera_failed() ==> (r == Err::<Effect, EngineError>(
                    EngineError::CameraUnavailable,
                ) && final(self).registry == old(self).registry)
                &&& !old(self).source.camera_failed() && old(self).registry.contains_sid(id) ==> (r
                    == Err::<Effect, EngineError>(EngineError::DuplicateSessionId) && final(self).registry == old(self).registry)
                &&& !old(self).source.camera_failed() && !old(self).registry.contains_sid(id) ==> (
                r == Ok::<Effect, EngineError>(Effect::SpawnStream { id, sink }) && final(self).registry.as_map() == old(self).registry.as_map().insert(
                    id,
                    starting_session(id, sink),
                ) && final(self).registry.count_spec() == old(self).registry.count_spec() + 1)
            },
            *cmd matches Command::StopSession { id } ==> {
                &&& final(self).registry.as_map() == old(self).registry.as_map().remove(id)
                &&& !final(self).registry.contains_sid(id)
                &&& old(self).registry.contains_sid(id) ==> r == Ok::<Effect, EngineError>(
                    Effect::CancelStream { id },
                )
                &&& !old(self).registry.contains_sid(id) ==> r == Ok::<Effect, EngineError>(
                    Effect::NoEffect,
                )
            },
            *cmd matches Command::Actuate { x_bits, y_bits } ==> r == Ok::<Effect, EngineError>(
                Effect::ActuateMotors { x_bits, y_bits },
            ) && final(self).registry == old(self).registry,
            *cmd matches Command::PeerRegistered { handle } ==> r == Ok::<Effect, EngineError>(
                Effect::NoEffect,
            ) && final(self).registry == old(self).registry,
    {
        match *cmd {
            Command::StartSession { id, sink } => {
                if self.source.is_camera_failed() {
                    return Err(EngineError::CameraUnavailable);
                }
                match self.registry.start_session(id, sink) {
                    Ok(()) => Ok(Effect::SpawnStream { id, sink }),
                    Err(e) => Err(e),
                }
            },
            Command::StopSession { id } => {
                let was_present = self.registry.stop_session(id);
                if was_present {
                    Ok(Effect::CancelStream { id })
                } else {
                    Ok(Effect::NoEffect)
                }
            },
            Command::Actuate { x_bits, y_bits } => {
                Ok(Effect::ActuateMotors { x_bits, y_bits })
            },
            Command::PeerRegistered { handle: _ } => Ok(Effect::NoEffect),
        }
    }

    /// One supervisor pass: reads the active count, reconciles power.
    /// Afterwards the source is powered exactly when sessions exist —
    /// bounded staleness of one tick, whatever happened since the last pass.
    pub fn supervisor_tick(&mut self) -> (a: PowerAction)
        requires
            old(self).wf(),
        ensures
            final(self).wf(),
            final(self).registry == old(self).registry,
            a == spec_reconcile(old(self).registry.count_spec(), old(self).source.powered_spec()),
            final(self).source.powered_spec() == (old(self).registry.count_spec() > 0),
            final(self).source.device_spec() == old(self).source.device_spec(),
            final(self).source.camera_failed() == old(self).source.camera_failed(),
            final(self).source.published() == old(self).source.published(),
            final(self).source.current_view() == old(self).source.current_view(),
    {
        let count = self.registry.active_count();
        let powered = self.source.is_powered();
        let a = reconcile(count, powered);
        proof {
            lemma_power_follows_count(count as nat, powered);
        }
        match a {
            PowerAction::TurnOn => self.source.set_power(true),
            PowerAction::TurnOff => self.source.set_power(false),
            PowerAction::Keep => {},
        }
        a
    }
}

/// Any number of concurrent starts with distinct ids, none already live,
/// drive the active count to its old value plus the number of requests, and
/// the supervisor's next pass then powers the frame source on, whatever its
/// previous power state.
pub proof fn lemma_starts_then_power_on(r: SessionRegistry, reqs: Seq<(u128, u64)>, powered: bool)
    requires
        r.wf(),
        forall|i: int, j: int|
            0 <= i < j < reqs.len() ==> (#[trigger] reqs[i]).0 != (#[trigger] reqs[j]).0,
        forall|i: int| 0 <= i < reqs.len() ==> !r.contains_sid((#[trigger] reqs[i]).0),
    ensures
        after_starts(r.as_map(), reqs).dom().finite(),
        after_starts(r.as_map(), reqs).dom().len() == r.count_spec() + reqs.len(),
        forall|i: int|
            0 <= i < reqs.len() ==> after_starts(r.as_map(), reqs).contains_key(
                (#[trigger] reqs[i]).0,
            ),
        reqs.len() > 0 ==> spec_apply(
            spec_reconcile((r.count_spec() + reqs.len()) as nat, powered),
            powered,
        ),
{
    lemma_count_matches_map(r);
    assert forall|i: int| 0 <= i < reqs.len() implies !r.as_map().dom().contains(
        (#[trigger] reqs[i]).0,
    ) by {
        assert(!r.contains_sid(reqs[i].0));
    }
    lemma_concurrent_starts(r.as_map(), reqs);
    lemma_power_follows_count((r.count_spec() + reqs.len()) as nat, powered);
}

} // verus!
