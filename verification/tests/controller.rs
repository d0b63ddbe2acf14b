use dynheat::controller::{require_sensors, ControllerError, ControllerStatus, EvaluationRound};
use dynheat::outputs::OutputCommand;
use dynheat::sensors::SensorError;
use dynheat::snapshot::SensorSnapshot;

fn bits(v: f32) -> Option<u32> {
    Some(v.to_bits())
}

fn command() -> OutputCommand {
    OutputCommand {
        flow_temperature: 35.0f32.to_bits(),
        power_level: 0.5f32.to_bits(),
        comfort_setpoint: 21.0f32.to_bits(),
        reason: "r".to_string(),
        timestamp_secs: 1_700_000_000,
        timestamp_nanos: 0,
    }
}

#[test]
fn controller_error_messages() {
    let e = ControllerError::sensor_setup_failed("JsonFile { .. }", "boom");
    assert_eq!(e.message(), "sensor error: JsonFile { .. }: boom");
    let e = ControllerError::output_setup_failed("Log", "bad");
    assert_eq!(e.message(), "output error: Log: bad");
}

#[test]
fn sensors_are_required() {
    assert!(require_sensors(2).is_ok());
    match require_sensors(0) {
        Err(ControllerError::Sensor(m)) => assert_eq!(m, "no sensors configured"),
        _ => panic!("expected error"),
    }
}

#[test]
fn round_merges_readings_and_lists_failures() {
    let mut round = EvaluationRound::new();
    round.record_reading("A", Ok(SensorSnapshot { lux: bits(100.0), ..SensorSnapshot::empty() }));
    round.record_reading("B", Err(SensorError::Empty("B".to_string())));
    round.record_reading(
        "C",
        Ok(SensorSnapshot { outside_temperature: bits(2.0), lux: bits(900.0), ..SensorSnapshot::empty() }),
    );
    round.finish_readings();
    assert_eq!(round.snapshot.lux, bits(100.0));
    assert_eq!(round.snapshot.outside_temperature, bits(2.0));
    assert_eq!(round.errors, vec!["B: no data available from sensor B".to_string()]);
    round.record_delivery("Relay", Err("http error: refused".to_string()));
    round.record_delivery("Console", Ok(()));
    assert_eq!(
        round.errors,
        vec!["B: no data available from sensor B".to_string(), "Relay: http error: refused".to_string()]
    );
}

#[test]
fn round_without_temperature_notes_missing_data() {
    let mut round = EvaluationRound::new();
    round.record_reading("A", Ok(SensorSnapshot { lux: bits(100.0), humidity: bits(30.0), ..SensorSnapshot::empty() }));
    round.finish_readings();
    assert_eq!(round.errors, vec!["No relevant sensor data available".to_string()]);
}

#[test]
fn status_lists_every_problem_of_a_round() {
    let mut status = ControllerStatus::default();
    assert!(status.snapshot.is_none() && status.command.is_none() && status.errors.is_empty());
    status.errors = vec!["old".to_string()];
    let reading_errors: Vec<String> = vec![];
    status.publish(SensorSnapshot::empty(), command(), reading_errors);
    assert!(status.errors.is_empty());
    status.publish_errors(vec![]);
    assert!(status.errors.is_empty());
    status.publish(SensorSnapshot::empty(), command(), vec!["a".to_string()]);
    status.publish_errors(vec!["a".to_string(), "b".to_string()]);
    assert_eq!(status.errors, vec!["a".to_string(), "b".to_string()]);
    assert_eq!(status.command.unwrap().reason, "r");
}

#[test]
fn reload_failure_answer() {
    let e = ControllerError::Sensor("no sensors configured".to_string());
    assert_eq!(e.reload_failed_message(), "controller reload failed: sensor error: no sensors configured");
}
