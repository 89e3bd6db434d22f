//! The frame source: owner of the camera device and the current-frame slot.
//!
//! The capture loop itself is outside work (a blocking device read between
//! sleeps); what stands here is every decision that loop takes and every
//! state change an outcome causes. The driver asks `next_capture_action` what
//! to do, performs the device call, and reports the outcome back through the
//! `on_*` events.

use vstd::prelude::*;
use crate::frame::Frame;
use crate::frame::FrameSlot;
use crate::frame::FrameView;

verus! {

/// Whether the physical device is currently held open by the capture loop.
#[derive(Clone, Copy, PartialEq, Eq, Structural, Debug)]
pub enum DeviceState {
    Released,
    Acquired,
}

/// What the capture loop must do on this pass.
#[derive(Clone, Copy, PartialEq, Eq, Structural, Debug)]
pub enum CaptureAction {
    /// Powered and holding the device: pull one frame.
    ReadFrame,
    /// Powered but the device is closed: reopen before resuming.
    OpenDevice,
    /// Powered off while still holding the device: release it.
    CloseDevice,
    /// Powered off and released: sleep until the next pass.
    Idle,
}

/// The frame source's state: the power flag the supervisor owns, the device
/// handle state, whether the last open attempt failed, and the shared slot.
pub struct FrameSource {
    powered: bool,
    device: DeviceState,
    failed: bool,
    slot: FrameSlot,
}

impl FrameSource {
    pub closed spec fn powered_spec(self) -> bool {
        self.powered
    }

    pub closed spec fn device_spec(self) -> DeviceState {
        self.device
    }

    /// Whether acquiring the camera has failed: terminal for starting new
    /// sessions, non-fatal to everything else.
    pub closed spec fn camera_failed(self) -> bool {
        self.failed
    }

    /// Every frame ever published into the slot.
    pub closed spec fn published(self) -> Seq<FrameView> {
        self.slot.published()
    }

    /// What a reader of the slot would observe now.
    pub closed spec fn current_view(self) -> Option<FrameView> {
        self.slot.current_view()
    }

    pub closed spec fn wf(self) -> bool {
        self.slot.wf()
    }

    /// A fresh source: powered off, device released, nothing captured yet.
    pub fn new() -> (r: FrameSource)
        ensures
            r.wf(),
            !r.powered_spec(),
            r.device_spec() == DeviceState::Released,
            !r.camera_failed(),
            r.published() == Seq::<FrameView>::empty(),
            r.current_view() is None,
    {
        FrameSource { powered: false, device: DeviceState::Released, failed: false, slot: FrameSlot::empty() }
    }

    pub fn is_powered(&self) -> (b: bool)
        ensures
            b == self.powered_spec(),
    {
        self.powered
    }

    pub fn is_camera_failed(&self) -> (b: bool)
        ensures
            b == self.camera_failed(),
    {
        self.failed
    }

    /// Sets the power flag; only the supervisor calls this, as the sole owner
    /// of power transitions. Everything else is untouched.
    pub fn set_power(&mut self, on: bool)
        ensures
            final(self).powered_spec() == on,
            final(self).device_spec() == old(self).device_spec(),
            final(self).camera_failed() == old(self).camera_failed(),
            final(self).published() == old(self).published(),
            final(self).current_view() == old(self).current_view(),
            final(self).wf() == old(self).wf(),
    {
        self.powered = on;
    }

    /// The decision of one capture-loop pass, from power and device state
    /// alone.
    pub fn next_capture_action(&self) -> (a: CaptureAction)
        ensures
            a == CaptureAction::ReadFrame <==> (self.powered_spec() && self.device_spec()
                == DeviceState::Acquired),
            a == CaptureAction::OpenDevice <==> (self.powered_spec() && self.device_spec()
                == DeviceState::Released),
            a == CaptureAction::CloseDevice <==> (!self.powered_spec() && self.device_spec()
                == DeviceState::Acquired),
            a == CaptureAction::Idle <==> (!self.powered_spec() && self.device_spec()
                == DeviceState::Released),
    {
        match (self.powered, self.device) {
            (true, DeviceState::Acquired) => CaptureAction::ReadFrame,
            (true, DeviceState::Released) => CaptureAction::OpenDevice,
            (false, DeviceState::Acquired) => CaptureAction::CloseDevice,
            (false, DeviceState::Released) => CaptureAction::Idle,
        }
    }

    /// The driver attempted to open the device. On success the source holds
    /// it; on failure it stays released and the failure is recorded, which
    /// blocks new sessions but crashes nothing.
    pub fn on_device_opened(&mut self, success: bool)
        ensures
            final(self).device_spec() == if success {
                DeviceState::Acquired
            } else {
                DeviceState::Released
            },
            final(self).camera_failed() == !success,
            final(self).powered_spec() == old(self).powered_spec(),
            final(self).published() == old(self).published(),
            final(self).current_view() == old(self).current_view(),
            final(self).wf() == old(self).wf(),
    {
        if success {
            self.device = DeviceState::Acquired;
            self.failed = false;
        } else {
            self.device = DeviceState::Released;
            self.failed = true;
        }
    }

    /// The driver released the device after a power-down.
    pub fn on_device_closed(&mut self)
        ensures
            final(self).device_spec() == DeviceState::Released,
            final(self).powered_spec() == old(self).powered_spec(),
            final(self).camera_failed() == old(self).camera_failed(),
            final(self).published() == old(self).published(),
            final(self).current_view() == old(self).current_view(),
            final(self).wf() == old(self).wf(),
    {
        self.device = DeviceState::Released;
    }

    /// The outcome of one device read. A frame overwrites the slot; a
    /// transient read failure (`None`) retains the previous frame and is not
    /// escalated: the loop simply continues.
    pub fn on_frame_read(&mut self, capture: Option<Frame>)
        requires
            old(self).wf(),
            capture matches Some(f) ==> f.wf(),
        ensures
            final(self).wf(),
            final(self).powered_spec() == old(self).powered_spec(),
            final(self).device_spec() == old(self).device_spec(),
            final(self).camera_failed() == old(self).camera_failed(),
            match capture {
                Some(f) => final(self).published() == old(self).published().push(f@) && final(self).current_view() == Some(f@),
                None => final(self).published() == old(self).published() && final(self).current_view()
                    == old(self).current_view(),
            },
    {
        match capture {
            Some(f) => self.slot.publish(f),
            None => {},
        }
    }

    /// Copy-out read of the current frame for a session task: the writer
    /// never waits on readers.
    pub fn snapshot(&self) -> (r: Option<Frame>)
        requires
            self.wf(),
        ensures
            match r {
                None => self.published().len() == 0 && self.current_view() is None,
                Some(f) => self.published().len() > 0 && f@ == self.published().last()
                    && self.current_view() == Some(f@) && f.wf(),
            },
    {
        self.slot.snapshot()
    }

    /// Non-blocking snapshot of the current frame: `None` only before the
    /// first successful capture, otherwise the most recently published frame.
    pub fn current(&self) -> (r: Option<&Frame>)
        requires
            self.wf(),
        ensures
            match r {
                None => self.published().len() == 0 && self.current_view() is None,
                Some(f) => self.published().len() > 0 && f@ == self.published().last()
                    && self.current_view() == Some(f@) && f.wf(),
            },
    {
        self.slot.current()
    }
}

} // verus!
