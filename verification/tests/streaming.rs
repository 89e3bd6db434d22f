use realtime_rc::command::Command;
use realtime_rc::encoder::CompressedSample;
use realtime_rc::engine::Engine;
use realtime_rc::frame::Frame;
use realtime_rc::frame::FrameSlot;

fn test_frame(seed: u8) -> Frame {
    let width: u32 = 32;
    let height: u32 = 32;
    let mut pixels: Vec<u8> = Vec::new();
    for i in 0..(3 * width * height) {
        pixels.push(((i as u32 as u8).wrapping_mul(17)).wrapping_add(seed));
    }
    Frame::new(width, height, pixels).expect("valid frame")
}

#[test]
fn frame_validation() {
    // Odd dimensions are rejected.
    assert!(Frame::new(3, 2, vec![0u8; 18]).is_none());
    assert!(Frame::new(2, 3, vec![0u8; 18]).is_none());
    // A buffer that does not hold three bytes per pixel is rejected.
    assert!(Frame::new(2, 2, vec![0u8; 11]).is_none());
    assert!(Frame::new(2, 2, vec![0u8; 13]).is_none());
    // The exact well-formed combination is accepted as given.
    let f = Frame::new(2, 2, vec![9u8; 12]).expect("valid frame");
    assert_eq!(f.width, 2);
    assert_eq!(f.height, 2);
    assert_eq!(f.pixels, vec![9u8; 12]);
}

#[test]
fn slot_exposes_latest_frame_only() {
    let mut slot = FrameSlot::empty();
    // Nothing before the first capture.
    assert!(slot.current().is_none());
    assert!(slot.snapshot().is_none());
    let f1 = test_frame(1);
    let f2 = test_frame(2);
    let f2_pixels = f2.pixels.clone();
    slot.publish(f1);
    slot.publish(f2);
    // The reader observes the most recent publish, never an older frame.
    let seen = slot.current().expect("frame present");
    assert_eq!(seen.pixels, f2_pixels);
    // The copy-out read hands back the same frame as its own copy.
    let copy = slot.snapshot().expect("frame present");
    assert_eq!(copy.pixels, f2_pixels);
    assert_eq!(copy.width, 32);
    assert_eq!(copy.height, 32);
}

#[test]
fn five_frames_five_samples_in_order() {
    let mut engine = Engine::new();
    let id = 1u128;
    assert!(engine.handle_command(&Command::StartSession { id, sink: 1 }).is_ok());
    let first = test_frame(0);
    engine.registry.activate(id, &first).expect("activation");
    let mut samples: Vec<CompressedSample> = Vec::new();
    for seed in 1u8..=5u8 {
        let frame = test_frame(seed);
        engine.source.on_frame_read(Some(frame));
        let current = engine.source.snapshot().expect("frame present");
        samples.push(engine.registry.session_tick(id, &current).expect("tick"));
    }
    // Exactly one sample per fed frame, each tagged with the 20 ms cadence.
    assert_eq!(samples.len(), 5);
    for s in &samples {
        assert_eq!(s.duration_ms, 20);
        assert!(!s.data.is_empty());
    }
}

#[test]
fn two_sessions_encode_independently() {
    let mut engine = Engine::new();
    let (a, b) = (1u128, 2u128);
    for id in [a, b] {
        assert!(engine.handle_command(&Command::StartSession { id, sink: id as u64 }).is_ok());
    }
    let first = test_frame(0);
    engine.registry.activate(a, &first).expect("activation");
    engine.registry.activate(b, &first).expect("activation");
    let mut count_a = 0usize;
    let mut count_b = 0usize;
    for seed in 1u8..=5u8 {
        // Both sessions consume the identical current frame.
        let frame = test_frame(seed);
        let sample_a = engine.registry.session_tick(a, &frame).expect("tick");
        let sample_b = engine.registry.session_tick(b, &frame).expect("tick");
        assert!(!sample_a.data.is_empty());
        assert!(!sample_b.data.is_empty());
        count_a += 1;
        count_b += 1;
    }
    // Each session's own pipeline produced a full independent stream.
    assert_eq!(count_a, 5);
    assert_eq!(count_b, 5);
}

#[test]
fn encoder_compresses_rather_than_copies() {
    let mut engine = Engine::new();
    let id = 3u128;
    assert!(engine.handle_command(&Command::StartSession { id, sink: 1 }).is_ok());
    let frame = test_frame(4);
    let raw = frame.pixels.clone();
    engine.registry.activate(id, &frame).expect("activation");
    let sample = engine.registry.session_tick(id, &frame).expect("tick");
    // The sink receives an encoded bitstream, not the raw pixels.
    assert_ne!(sample.data, raw);
    assert!(!sample.data.is_empty());
}

#[test]
fn transient_read_failure_retains_previous_frame() {
    let mut engine = Engine::new();
    let f = test_frame(6);
    let pixels = f.pixels.clone();
    engine.source.on_frame_read(Some(f));
    // A transient failure is tolerated: the stale frame stays readable.
    engine.source.on_frame_read(None);
    let seen = engine.source.current().expect("frame present");
    assert_eq!(seen.pixels, pixels);
}
