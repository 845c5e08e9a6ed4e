use moq_prototype::state_machine::command::{CommandInput, CommandOutput, CommandQueueMachine};
use moq_prototype::state_machine::echo::{EchoInput, EchoMachine, EchoOutput};
use moq_prototype::state_machine::telemetry::{
    Position, TelemetryInput, TelemetryMachine, TelemetryOutput,
};
use moq_prototype::state_machine::StateMachine;

fn sample_position(lat: f64) -> Position {
    Position {
        drone_id: "test-drone".to_string(),
        latitude: lat.to_bits(),
        longitude: (-122.4194f64).to_bits(),
        altitude_m: (100.0f64).to_bits(),
        heading_deg: (0.0f64).to_bits(),
        speed_mps: (0.0f64).to_bits(),
        timestamp: 1234567890,
    }
}

#[test]
fn test_enqueue_and_poll() {
    let mut machine = CommandQueueMachine::new();

    assert!(machine.is_empty());
    assert_eq!(machine.pending_count(), 0);

    // Enqueue some commands
    machine.process_input(CommandInput::Enqueue(vec![1, 2, 3]));
    machine.process_input(CommandInput::Enqueue(vec![4, 5, 6]));

    assert!(!machine.is_empty());
    assert_eq!(machine.pending_count(), 2);

    // Poll in FIFO order
    let out1 = machine.poll_output();
    assert!(matches!(out1, Some(CommandOutput::Command(ref v)) if v == &vec![1, 2, 3]));

    let out2 = machine.poll_output();
    assert!(matches!(out2, Some(CommandOutput::Command(ref v)) if v == &vec![4, 5, 6]));

    // Queue is now empty
    assert!(machine.poll_output().is_none());
    assert!(machine.is_empty());
}

#[test]
fn test_empty_poll_returns_none() {
    let mut machine = CommandQueueMachine::new();
    assert!(machine.poll_output().is_none());
}

#[test]
fn test_fifo_order_three_commands() {
    let mut machine = CommandQueueMachine::new();
    machine.process_input(CommandInput::Enqueue(vec![b'A']));
    machine.process_input(CommandInput::Enqueue(vec![b'B']));
    machine.process_input(CommandInput::Enqueue(vec![b'C']));

    let out1 = machine.poll_output();
    assert!(matches!(out1, Some(CommandOutput::Command(ref v)) if v == &vec![b'A']));
    let out2 = machine.poll_output();
    assert!(matches!(out2, Some(CommandOutput::Command(ref v)) if v == &vec![b'B']));
    let out3 = machine.poll_output();
    assert!(matches!(out3, Some(CommandOutput::Command(ref v)) if v == &vec![b'C']));
    assert!(machine.poll_output().is_none());
}

#[test]
fn test_initial_state() {
    let machine = TelemetryMachine::new();
    assert!(machine.current_position().is_none());
    assert!(!machine.has_pending());
}

#[test]
fn test_update_and_poll() {
    let mut machine = TelemetryMachine::new();

    let pos = sample_position(37.7749);
    machine.process_input(TelemetryInput::Position(pos.clone()));

    assert!(machine.has_pending());
    assert_eq!(machine.current_position(), Some(&pos));

    // Poll consumes the pending flag
    let output = machine.poll_output();
    assert!(matches!(output, Some(TelemetryOutput::PositionUpdate(ref p)) if p == &pos));

    // No longer pending, but position is still available
    assert!(!machine.has_pending());
    assert_eq!(machine.current_position(), Some(&pos));

    // Second poll returns None
    assert!(machine.poll_output().is_none());
}

#[test]
fn test_latest_position_overwrites() {
    let mut machine = TelemetryMachine::new();

    machine.process_input(TelemetryInput::Position(sample_position(37.0)));
    machine.process_input(TelemetryInput::Position(sample_position(38.0)));

    // Only the latest position is available
    let output = machine.poll_output();
    assert!(
        matches!(output, Some(TelemetryOutput::PositionUpdate(p)) if p.latitude == (38.0f64).to_bits())
    );
}

#[test]
fn test_echo_machine_roundtrip() {
    let mut machine = EchoMachine::new();
    assert!(machine.poll_output().is_none());

    let pos = moq_prototype::state_machine::echo::Position {
        drone_id: "echo-drone".to_string(),
        latitude: (37.5f64).to_bits(),
        longitude: (-122.0f64).to_bits(),
        altitude_m: (55.0f64).to_bits(),
        heading_deg: (90.0f64).to_bits(),
        speed_mps: (3.5f64).to_bits(),
        timestamp: 42,
    };
    machine.process_input(EchoInput::Position(pos.clone()));

    let output = machine.poll_output();
    assert!(matches!(output, Some(EchoOutput::Position(ref p)) if p == &pos));

    // Echoed at most once per input
    assert!(machine.poll_output().is_none());
}
