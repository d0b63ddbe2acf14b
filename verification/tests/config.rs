use dynheat::config::{HeatingConfig, HeatingConfigUpdate};
use dynheat::outputs::OutputSettings;
use dynheat::sensors::SensorSettings;
use std::time::Duration;

fn f(bits: u32) -> f32 {
    f32::from_bits(bits)
}

#[test]
fn default_settings() {
    let c = HeatingConfig::default();
    assert_eq!(f(c.comfort_temperature), 21.0);
    assert_eq!(f(c.setback_temperature), 18.5);
    assert_eq!(f(c.design_outdoor_temperature), -10.0);
    assert_eq!(f(c.heating_curve_slope), 1.6);
    assert_eq!(f(c.heating_curve_base), 30.0);
    assert_eq!(f(c.lux_reference), 800.0);
    assert_eq!(f(c.lux_influence), 3.0);
    assert_eq!(c.control_runs_per_day, 24);
    assert_eq!(f(c.output_min), 0.0);
    assert_eq!(f(c.output_max), 1.0);
    assert_eq!(c.sensors.len(), 1);
    match &c.sensors[0] {
        SensorSettings::JsonFile { path, friendly_name } => {
            assert_eq!(path, "data/sample_environment.json");
            assert_eq!(friendly_name, "Sample JSON");
        }
        _ => panic!("unexpected default sensor"),
    }
    assert_eq!(c.outputs.len(), 1);
    match &c.outputs[0] {
        OutputSettings::Log { name } => assert_eq!(name, "Console"),
        _ => panic!("unexpected default output"),
    }
}

#[test]
fn default_interval_is_one_hour() {
    let c = HeatingConfig::default_config();
    assert_eq!(c.interval_secs(), 3600);
    assert_eq!(c.interval_duration(), Duration::from_secs(3600));
}

#[test]
fn zero_runs_count_as_one() {
    let mut c = HeatingConfig::default_config();
    c.control_runs_per_day = 0;
    assert_eq!(c.interval_secs(), 86400);
    assert_eq!(c.interval_duration(), Duration::from_secs(86400));
}

#[test]
fn more_runs_than_seconds_give_zero_interval() {
    let mut c = HeatingConfig::default_config();
    c.control_runs_per_day = 100_000;
    assert_eq!(c.interval_secs(), 0);
    c.control_runs_per_day = 86_400;
    assert_eq!(c.interval_secs(), 1);
    c.control_runs_per_day = 7;
    assert_eq!(c.interval_secs(), 12342);
    assert!(c.interval_secs() * 7 <= 86400);
}

#[test]
fn update_takes_given_settings_only() {
    let mut c = HeatingConfig::default_config();
    let mut u = HeatingConfigUpdate::default();
    u.comfort_temperature = Some(22.5f32.to_bits());
    u.output_max = Some(0.8f32.to_bits());
    u.outputs = Some(vec![OutputSettings::Log { name: "Other".to_string() }]);
    c.update(u);
    assert_eq!(f(c.comfort_temperature), 22.5);
    assert_eq!(f(c.output_max), 0.8);
    assert_eq!(f(c.setback_temperature), 18.5);
    assert_eq!(c.control_runs_per_day, 24);
    assert_eq!(c.sensors.len(), 1);
    assert_eq!(c.output_names(), vec!["Other".to_string()]);
}

#[test]
fn update_raises_zero_runs_to_one() {
    let mut c = HeatingConfig::default_config();
    let mut u = HeatingConfigUpdate::nothing();
    u.control_runs_per_day = Some(0);
    c.update(u);
    assert_eq!(c.control_runs_per_day, 1);
    let mut u = HeatingConfigUpdate::nothing();
    u.control_runs_per_day = Some(48);
    c.update(u);
    assert_eq!(c.control_runs_per_day, 48);
    assert_eq!(c.interval_secs(), 1800);
}

#[test]
fn empty_update_changes_nothing() {
    let mut c = HeatingConfig::default_config();
    let before = format!("{:?}", c);
    c.update(HeatingConfigUpdate::nothing());
    assert_eq!(format!("{:?}", c), before);
}

#[test]
fn update_twice_same_as_once() {
    let mut u = HeatingConfigUpdate::nothing();
    u.lux_reference = Some(500.0f32.to_bits());
    u.control_runs_per_day = Some(0);
    u.sensors = Some(vec![SensorSettings::DemoWeather { friendly_name: "Demo".to_string() }]);
    let mut once = HeatingConfig::default_config();
    once.update(u.clone());
    let mut twice = HeatingConfig::default_config();
    twice.update(u.clone());
    twice.update(u);
    assert_eq!(format!("{:?}", once), format!("{:?}", twice));
}

#[test]
fn later_update_wins_on_example() {
    let mut first = HeatingConfigUpdate::nothing();
    first.comfort_temperature = Some(20.0f32.to_bits());
    first.setback_temperature = Some(17.0f32.to_bits());
    let mut second = HeatingConfigUpdate::nothing();
    second.comfort_temperature = Some(23.0f32.to_bits());
    let mut c = HeatingConfig::default_config();
    c.update(first);
    c.update(second);
    assert_eq!(f(c.comfort_temperature), 23.0);
    assert_eq!(f(c.setback_temperature), 17.0);
}

#[test]
fn names_of_sensors_and_outputs() {
    let mut c = HeatingConfig::default_config();
    c.sensors = vec![
        SensorSettings::JsonFile { path: "p".to_string(), friendly_name: "File".to_string() },
        SensorSettings::Mqtt {
            friendly_name: "Broker".to_string(),
            broker: "mqtt://h:1883".to_string(),
            topic: "t".to_string(),
            payload_key: None,
        },
        SensorSettings::DemoWeather { friendly_name: "Demo".to_string() },
    ];
    c.outputs = vec![
        OutputSettings::ShellyRelay { name: "Relay".to_string(), base_url: "http://x".to_string() },
        OutputSettings::Mqtt { name: "Pub".to_string(), broker: "mqtt://h:1".to_string(), topic: "t".to_string() },
        OutputSettings::Log { name: "Console".to_string() },
    ];
    assert_eq!(c.sensor_names(), vec!["File", "Broker", "Demo"]);
    assert_eq!(c.output_names(), vec!["Relay", "Pub", "Console"]);
}
