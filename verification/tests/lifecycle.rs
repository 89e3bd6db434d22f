use realtime_rc::command::Command;
use realtime_rc::encoder::EngineError;
use realtime_rc::engine::Effect;
use realtime_rc::engine::Engine;
use realtime_rc::frame::Frame;
use realtime_rc::supervisor::PowerAction;

fn test_frame(seed: u8) -> Frame {
    let width: u32 = 32;
    let height: u32 = 32;
    let mut pixels: Vec<u8> = Vec::new();
    for i in 0..(3 * width * height) {
        pixels.push(((i as u32 as u8).wrapping_mul(31)).wrapping_add(seed));
    }
    Frame::new(width, height, pixels).expect("valid frame")
}

#[test]
fn concurrent_starts_reach_count_and_power_on() {
    let mut engine = Engine::new();
    for id in 1u128..=3u128 {
        let r = engine.handle_command(&Command::StartSession { id, sink: id as u64 });
        assert_eq!(r, Ok(Effect::SpawnStream { id, sink: id as u64 }));
    }
    assert_eq!(engine.registry.active_count(), 3);
    assert!(!engine.source.is_powered());
    let action = engine.supervisor_tick();
    assert_eq!(action, PowerAction::TurnOn);
    assert!(engine.source.is_powered());
}

#[test]
fn start_then_stop_leaves_no_entry() {
    let mut engine = Engine::new();
    let id = 7u128;
    assert!(engine.handle_command(&Command::StartSession { id, sink: 1 }).is_ok());
    let r = engine.handle_command(&Command::StopSession { id });
    assert_eq!(r, Ok(Effect::CancelStream { id }));
    assert_eq!(engine.registry.active_count(), 0);
    // Stopping again, as a race with self-eviction would, is harmless.
    let r2 = engine.handle_command(&Command::StopSession { id });
    assert_eq!(r2, Ok(Effect::NoEffect));
    assert_eq!(engine.registry.active_count(), 0);
}

#[test]
fn stop_racing_self_eviction_stays_consistent() {
    let mut engine = Engine::new();
    let id = 9u128;
    assert!(engine.handle_command(&Command::StartSession { id, sink: 1 }).is_ok());
    // The task self-evicts after a sink write failure...
    engine.registry.on_sink_failure(id);
    // ...and the disconnect command arrives right after.
    let r = engine.handle_command(&Command::StopSession { id });
    assert_eq!(r, Ok(Effect::NoEffect));
    assert_eq!(engine.registry.active_count(), 0);
}

#[test]
fn duplicate_start_rejected_and_original_untouched() {
    let mut engine = Engine::new();
    let id = 11u128;
    assert!(engine.handle_command(&Command::StartSession { id, sink: 5 }).is_ok());
    let frame = test_frame(1);
    engine.registry.activate(id, &frame).expect("activation");
    // A second start for the live id is rejected...
    let r = engine.handle_command(&Command::StartSession { id, sink: 6 });
    assert_eq!(r, Err(EngineError::DuplicateSessionId));
    assert_eq!(engine.registry.active_count(), 1);
    // ...and the original session still streams.
    let sample = engine.registry.session_tick(id, &frame).expect("tick");
    assert_eq!(sample.duration_ms, 20);
}

#[test]
fn sink_failure_removes_only_failed_session() {
    let mut engine = Engine::new();
    let (a, b, c) = (1u128, 2u128, 3u128);
    for id in [a, b, c] {
        assert!(engine.handle_command(&Command::StartSession { id, sink: id as u64 }).is_ok());
    }
    let frame = test_frame(2);
    for id in [a, b, c] {
        engine.registry.activate(id, &frame).expect("activation");
    }
    engine.registry.on_sink_failure(a);
    assert_eq!(engine.registry.active_count(), 2);
    // B and C remain active and keep receiving samples.
    for id in [b, c] {
        let sample = engine.registry.session_tick(id, &frame).expect("tick");
        assert_eq!(sample.duration_ms, 20);
    }
    // A is gone.
    assert!(matches!(
        engine.registry.session_tick(a, &frame),
        Err(EngineError::SessionNotFound)
    ));
}

#[test]
fn power_follows_count_transitions() {
    let mut engine = Engine::new();
    let id = 21u128;
    assert!(engine.handle_command(&Command::StartSession { id, sink: 1 }).is_ok());
    engine.supervisor_tick();
    assert!(engine.source.is_powered());
    // Count drops to zero: powered off within one tick.
    assert!(engine.handle_command(&Command::StopSession { id }).is_ok());
    let action = engine.supervisor_tick();
    assert_eq!(action, PowerAction::TurnOff);
    assert!(!engine.source.is_powered());
    // A later start powers it back on within one tick.
    assert!(engine.handle_command(&Command::StartSession { id, sink: 1 }).is_ok());
    let action = engine.supervisor_tick();
    assert_eq!(action, PowerAction::TurnOn);
    assert!(engine.source.is_powered());
    // With nothing changed the next tick keeps it.
    assert_eq!(engine.supervisor_tick(), PowerAction::Keep);
    assert!(engine.source.is_powered());
}

#[test]
fn camera_failure_blocks_new_sessions_only() {
    let mut engine = Engine::new();
    assert!(engine.handle_command(&Command::StartSession { id: 1, sink: 1 }).is_ok());
    // The device could not be opened.
    engine.source.on_device_opened(false);
    assert!(engine.source.is_camera_failed());
    let r = engine.handle_command(&Command::StartSession { id: 2, sink: 2 });
    assert_eq!(r, Err(EngineError::CameraUnavailable));
    // The session that already exists is untouched.
    assert_eq!(engine.registry.active_count(), 1);
    // A later successful open clears the failure.
    engine.source.on_device_opened(true);
    assert!(!engine.source.is_camera_failed());
    assert!(engine.handle_command(&Command::StartSession { id: 2, sink: 2 }).is_ok());
}

#[test]
fn tick_and_activate_errors() {
    let mut engine = Engine::new();
    let frame = test_frame(3);
    assert!(matches!(
        engine.registry.session_tick(99, &frame),
        Err(EngineError::SessionNotFound)
    ));
    assert_eq!(engine.registry.activate(99, &frame), Err(EngineError::SessionNotFound));
    assert!(engine.handle_command(&Command::StartSession { id: 4, sink: 1 }).is_ok());
    // Ticking before the first frame arrived: not active yet.
    assert!(matches!(
        engine.registry.session_tick(4, &frame),
        Err(EngineError::SessionNotActive)
    ));
    engine.registry.activate(4, &frame).expect("activation");
    assert_eq!(engine.registry.activate(4, &frame), Err(EngineError::AlreadyActive));
}

#[test]
fn stop_all_cancels_every_task() {
    let mut engine = Engine::new();
    for id in [5u128, 6u128, 7u128] {
        assert!(engine.handle_command(&Command::StartSession { id, sink: id as u64 }).is_ok());
    }
    let stopped = engine.registry.stop_all();
    assert_eq!(stopped, vec![5u128, 6u128, 7u128]);
    assert_eq!(engine.registry.active_count(), 0);
    let action = engine.supervisor_tick();
    assert_eq!(action, PowerAction::Keep);
    assert!(!engine.source.is_powered());
}
