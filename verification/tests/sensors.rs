use dynheat::sensors::{
    latest_snapshot, DemoWeatherSensor, ForecastBlock, JsonFileSensor, JsonSensorPayload,
    SensorError, SensorSettings,
};
use dynheat::snapshot::SensorSnapshot;

fn bits(v: f32) -> Option<u32> {
    Some(v.to_bits())
}

fn payload() -> JsonSensorPayload {
    JsonSensorPayload {
        outside_temperature: None,
        indoor_temperature: None,
        lux: None,
        forecast_temperature: None,
        humidity: None,
        weather_forecast: None,
    }
}

#[test]
fn sensor_names_and_paths() {
    let demo = DemoWeatherSensor::new("Demo".to_string());
    assert_eq!(demo.name(), "Demo");
    let file = JsonFileSensor::new("File".to_string(), "data/x.json".to_string());
    assert_eq!(file.name(), "File");
    assert_eq!(file.path(), "data/x.json");
    let s = SensorSettings::Mqtt {
        friendly_name: "M".to_string(),
        broker: "b".to_string(),
        topic: "t".to_string(),
        payload_key: Some("k".to_string()),
    };
    assert_eq!(s.friendly_name(), "M");
}

#[test]
fn file_values_are_taken_over() {
    let sensor = JsonFileSensor::new("File".to_string(), "f".to_string());
    let mut p = payload();
    p.outside_temperature = bits(4.0);
    p.humidity = bits(60.0);
    p.forecast_temperature = bits(2.0);
    p.weather_forecast = Some(ForecastBlock { temperature: bits(9.0) });
    let s = sensor.snapshot_from_payload(p).unwrap();
    assert_eq!(
        s,
        SensorSnapshot {
            outside_temperature: bits(4.0),
            indoor_temperature: None,
            lux: None,
            forecast_temperature: bits(2.0),
            humidity: bits(60.0),
        }
    );
}

#[test]
fn forecast_block_stands_in_for_missing_forecast() {
    let sensor = JsonFileSensor::new("File".to_string(), "f".to_string());
    let mut p = payload();
    p.weather_forecast = Some(ForecastBlock { temperature: bits(-1.5) });
    let s = sensor.snapshot_from_payload(p).unwrap();
    assert_eq!(s.forecast_temperature, bits(-1.5));
}

#[test]
fn file_with_humidity_only_is_empty() {
    let sensor = JsonFileSensor::new("File".to_string(), "f".to_string());
    let mut p = payload();
    p.humidity = bits(50.0);
    p.weather_forecast = Some(ForecastBlock { temperature: None });
    match sensor.snapshot_from_payload(p) {
        Err(SensorError::Empty(name)) => assert_eq!(name, "File"),
        other => panic!("unexpected {:?}", other.map(|_| ())),
    }
}

#[test]
fn file_with_lux_only_is_a_reading() {
    let sensor = JsonFileSensor::new("File".to_string(), "f".to_string());
    let mut p = payload();
    p.lux = bits(250.0);
    assert_eq!(sensor.snapshot_from_payload(p).unwrap().lux, bits(250.0));
}

#[test]
fn latest_snapshot_before_and_after_data() {
    match latest_snapshot("M", None) {
        Err(SensorError::Empty(name)) => assert_eq!(name, "M"),
        _ => panic!("expected empty"),
    }
    let s = SensorSnapshot { outside_temperature: bits(3.0), ..SensorSnapshot::empty() };
    assert_eq!(latest_snapshot("M", Some(s)).unwrap(), s);
}

#[test]
fn sensor_error_messages() {
    assert_eq!(SensorError::Io("gone".to_string()).message(), "i/o error: gone");
    assert_eq!(SensorError::Json("bad".to_string()).message(), "json error: bad");
    assert_eq!(SensorError::Mqtt("down".to_string()).message(), "mqtt error: down");
    assert_eq!(SensorError::Empty("File".to_string()).message(), "no data available from sensor File");
}
