use realtime_rc::bus::CommandBus;
use realtime_rc::command::Command;
use realtime_rc::command::CommandKind;
use realtime_rc::command::ControlMessage;
use realtime_rc::command::PeerTransportState;
use realtime_rc::command::command_for_control;
use realtime_rc::command::command_for_transport_state;
use realtime_rc::motor::MotorType;
use realtime_rc::motor::detect_motor_type;
use realtime_rc::source::CaptureAction;
use realtime_rc::source::FrameSource;
use realtime_rc::supervisor::PowerAction;
use realtime_rc::supervisor::reconcile;

#[test]
fn publish_delivers_to_each_subscriber_once() {
    let mut bus = CommandBus::new();
    bus.subscribe(CommandKind::StartSession, 10);
    bus.subscribe(CommandKind::StartSession, 20);
    // Subscribing twice must not produce a second delivery.
    bus.subscribe(CommandKind::StartSession, 10);
    bus.subscribe(CommandKind::Actuate, 30);
    let cmd = Command::StartSession { id: 1, sink: 2 };
    let deliveries = bus.publish(&cmd);
    assert_eq!(deliveries.len(), 2);
    assert_eq!(deliveries[0].consumer, 10);
    assert_eq!(deliveries[1].consumer, 20);
    for d in &deliveries {
        assert_eq!(d.command, cmd);
    }
}

#[test]
fn publish_without_subscriber_is_dropped() {
    let mut bus = CommandBus::new();
    bus.subscribe(CommandKind::StartSession, 10);
    // Nobody listens for peer registrations: the command is silently dropped.
    let deliveries = bus.publish(&Command::PeerRegistered { handle: 4 });
    assert!(deliveries.is_empty());
}

#[test]
fn command_kinds() {
    assert_eq!(Command::StartSession { id: 1, sink: 1 }.kind(), CommandKind::StartSession);
    assert_eq!(Command::StopSession { id: 1 }.kind(), CommandKind::StopSession);
    assert_eq!(Command::Actuate { x_bits: 0, y_bits: 0 }.kind(), CommandKind::Actuate);
    assert_eq!(Command::PeerRegistered { handle: 1 }.kind(), CommandKind::PeerRegistered);
}

#[test]
fn transport_state_changes_map_to_commands() {
    let id = 5u128;
    let sink = 6u64;
    assert_eq!(
        command_for_transport_state(id, sink, PeerTransportState::Connected),
        Some(Command::StartSession { id, sink })
    );
    assert_eq!(
        command_for_transport_state(id, sink, PeerTransportState::Disconnected),
        Some(Command::StopSession { id })
    );
    for state in [
        PeerTransportState::New,
        PeerTransportState::Connecting,
        PeerTransportState::Failed,
        PeerTransportState::Closed,
    ] {
        assert_eq!(command_for_transport_state(id, sink, state), None);
    }
}

#[test]
fn control_messages_republish_as_actuate() {
    let x = 0.5f32.to_bits();
    let y = (-1.0f32).to_bits();
    let msg = ControlMessage::Move { x_bits: x, y_bits: y };
    assert_eq!(command_for_control(msg), Command::Actuate { x_bits: x, y_bits: y });
}

#[test]
fn motor_detection_prefers_later_probe() {
    assert_eq!(detect_motor_type(false, false), MotorType::NotDetected);
    assert_eq!(detect_motor_type(true, false), MotorType::Sparkfun);
    assert_eq!(detect_motor_type(false, true), MotorType::Adafruit);
    assert_eq!(detect_motor_type(true, true), MotorType::Adafruit);
}

#[test]
fn reconcile_decision_table() {
    assert_eq!(reconcile(0, false), PowerAction::Keep);
    assert_eq!(reconcile(0, true), PowerAction::TurnOff);
    assert_eq!(reconcile(1, false), PowerAction::TurnOn);
    assert_eq!(reconcile(1, true), PowerAction::Keep);
}

#[test]
fn capture_loop_decisions() {
    let mut source = FrameSource::new();
    // Off and released: sleep.
    assert_eq!(source.next_capture_action(), CaptureAction::Idle);
    source.set_power(true);
    assert_eq!(source.next_capture_action(), CaptureAction::OpenDevice);
    source.on_device_opened(true);
    assert_eq!(source.next_capture_action(), CaptureAction::ReadFrame);
    source.set_power(false);
    assert_eq!(source.next_capture_action(), CaptureAction::CloseDevice);
    source.on_device_closed();
    assert_eq!(source.next_capture_action(), CaptureAction::Idle);
}
