//! Per-session encode pipeline: converts a raw frame into one compressed
//! sample for exactly one session.
//!
//! The compression itself is done by the openh264 crate; each call into it
//! stands behind a trusted item whose contract states only what that crate's
//! source shows. A pipeline owns its encoder: it is created lazily on the
//! first frame a session sees, sized to that frame, and is never shared with
//! or reused by another session.

use vstd::prelude::*;
use crate::frame::Frame;

verus! {

/// Playback duration, in milliseconds, attached to every sample: the fixed
/// cadence at which session tasks read and encode the current frame.
pub const TICK_MILLIS: u64 = 20;

#[verifier::external_type_specification]
#[verifier::external_body]
pub struct ExEncoder(openh264::encoder::Encoder);

#[verifier::external_type_specification]
#[verifier::external_body]
pub struct ExOpenH264Error(openh264::Error);

#[verifier::external_type_specification]
#[verifier::external_body]
pub struct ExYuvBuffer(openh264::formats::YUVBuffer);

/// Relies on openh264's `Encoder::with_api_config` over the bundled codec
/// source, with frame skipping on overload enabled in the configuration. Its
/// own documentation promises nothing of the returned encoder, so neither
/// does this contract.
#[verifier::external_body]
fn make_encoder() -> (r: Result<openh264::encoder::Encoder, openh264::Error>) {
    let config = openh264::encoder::EncoderConfig::new().skip_frames(true);
    let api = openh264::OpenH264API::from_source();
    openh264::encoder::Encoder::with_api_config(api, config)
}

/// Relies on `YUVBuffer::from_rgb8_source` over an `RgbSliceU8`: converts a
/// packed RGB buffer into 4:2:0 planes. Both panic unless the buffer holds
/// exactly three bytes per pixel and the dimensions are even, which is what
/// frame well-formedness requires here.
#[verifier::external_body]
fn yuv_from_rgb(frame: &Frame) -> (r: openh264::formats::YUVBuffer)
    requires
        frame.wf(),
{
    let dims = (frame.width as usize, frame.height as usize);
    let slice = openh264::formats::RgbSliceU8::new(frame.pixels.as_slice(), dims);
    openh264::formats::YUVBuffer::from_rgb8_source(slice)
}

/// Relies on `Encoder::encode` (at timestamp zero, which cannot panic) and
/// collects the bitstream with `EncodedBitStream::to_vec`. The bytes depend
/// on reference state accumulated inside the encoder, so nothing is promised
/// of them; the crate reports failures through its `Error` value.
#[verifier::external_body]
fn encode_yuv(
    enc: &mut openh264::encoder::Encoder,
    yuv: &openh264::formats::YUVBuffer,
) -> (r: Result<Vec<u8>, openh264::Error>) {
    match enc.encode(yuv) {
        Ok(bitstream) => Ok(bitstream.to_vec()),
        Err(e) => Err(e),
    }
}

/// The encoder output unit: compressed bytes with their playback duration.
pub struct CompressedSample {
    pub data: Vec<u8>,
    pub duration_ms: u64,
}

/// Wraps encoder output bytes into the sample handed to a sink, tagging them
/// with the fixed tick duration.
pub fn make_sample(data: Vec<u8>) -> (r: CompressedSample)
    ensures
        r.data@ == data@,
        r.duration_ms == TICK_MILLIS,
{
    CompressedSample { data, duration_ms: TICK_MILLIS }
}

/// One session's stateful compressor. Reference and motion state persists
/// across `encode` calls inside the owned encoder and is never shared with
/// another session's pipeline, nor reused after its session ends: the
/// pipeline is dropped with its session.
pub struct EncoderPipeline {
    width: u32,
    height: u32,
    raw: openh264::encoder::Encoder,
}

impl EncoderPipeline {
    /// The frame width this pipeline was sized to at creation.
    pub closed spec fn width_spec(self) -> nat {
        self.width as nat
    }

    /// The frame height this pipeline was sized to at creation.
    pub closed spec fn height_spec(self) -> nat {
        self.height as nat
    }

    /// Creates a pipeline for the first frame a session sees, sized to that
    /// frame's resolution. Failure aborts only the owning session.
    pub fn for_frame(frame: &Frame) -> (r: Result<EncoderPipeline, EngineError>)
        requires
            frame.wf(),
        ensures
            r matches Ok(p) ==> p.width_spec() == frame@.width && p.height_spec() == frame@.height,
            r matches Err(e) ==> e == EngineError::EncoderInitFailure,
    {
        match make_encoder() {
            Ok(raw) => Ok(EncoderPipeline { width: frame.width, height: frame.height, raw }),
            Err(_) => Err(EngineError::EncoderInitFailure),
        }
    }

    /// Compresses one frame. The resulting bytes depend on the encoder's
    /// accumulated reference state, so only the shape of the outcome is
    /// stated; failure is non-retryable and makes the owning session abort.
    pub fn encode(&mut self, frame: &Frame) -> (r: Result<Vec<u8>, EngineError>)
        requires
            frame.wf(),
        ensures
            final(self).width_spec() == old(self).width_spec(),
            final(self).height_spec() == old(self).height_spec(),
            r matches Err(e) ==> e == EngineError::EncodeFailure,
    {
        let yuv = yuv_from_rgb(frame);
        match encode_yuv(&mut self.raw, &yuv) {
            Ok(bytes) => Ok(bytes),
            Err(_) => Err(EngineError::EncodeFailure),
        }
    }
}

/// The failure taxonomy of the engine. Sink write failures are reported to
/// the engine as events, not returned by it, so they have no variant here.
#[derive(Clone, Copy, PartialEq, Eq, Structural, Debug)]
pub enum EngineError {
    /// The camera device could not be acquired: fatal to starting new
    /// sessions, non-fatal to everything already running.
    CameraUnavailable,
    /// The encoder for a new session could not be constructed; only that
    /// session aborts.
    EncoderInitFailure,
    /// A pipeline failed to compress a frame; only the owning session aborts.
    EncodeFailure,
    /// A start was requested for a viewer id that already has a live session;
    /// the existing session is retained untouched.
    DuplicateSessionId,
    /// The addressed session is not in the registry (already stopped or
    /// self-evicted).
    SessionNotFound,
    /// The addressed session has not yet produced its pipeline, so it cannot
    /// encode.
    SessionNotActive,
    /// The addressed session already owns a pipeline and cannot be activated
    /// a second time.
    AlreadyActive,
}

} // verus!
