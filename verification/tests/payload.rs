use dynheat::payload::{
    assign_key, build_single_value_snapshot, find_member, parse_payload, snapshot_from_object,
    JsonMember, JsonValue,
};
use dynheat::snapshot::SensorSnapshot;

fn num(v: f32) -> JsonValue {
    JsonValue::Number(v.to_bits())
}

fn member(key: &str, value: JsonValue) -> JsonMember {
    JsonMember { key: key.to_string(), value }
}

#[test]
fn assign_key_aliases() {
    let v = 12.5f32.to_bits();
    for key in ["outside_temperature", "outside", "outdoor"] {
        let mut s = SensorSnapshot::empty();
        assign_key(&mut s, key, v);
        assert_eq!(s.outside_temperature, Some(v));
        assert_eq!(s.forecast_temperature, None);
    }
    for key in ["indoor_temperature", "indoor", "room"] {
        let mut s = SensorSnapshot::empty();
        assign_key(&mut s, key, v);
        assert_eq!(s.indoor_temperature, Some(v));
    }
    for key in ["lux", "illuminance"] {
        let mut s = SensorSnapshot::empty();
        assign_key(&mut s, key, v);
        assert_eq!(s.lux, Some(v));
    }
    for key in ["forecast_temperature", "forecast", "anything_else", "Outside"] {
        let mut s = SensorSnapshot::empty();
        assign_key(&mut s, key, v);
        assert_eq!(s.forecast_temperature, Some(v));
        assert_eq!(s.outside_temperature, None);
    }
    let mut s = SensorSnapshot::empty();
    assign_key(&mut s, "humidity", v);
    assert_eq!(s.humidity, Some(v));
}

#[test]
fn single_value_snapshot_sets_one_field() {
    let s = build_single_value_snapshot("room", 20.0f32.to_bits());
    assert_eq!(s.indoor_temperature, Some(20.0f32.to_bits()));
    assert_eq!(s.outside_temperature, None);
    assert_eq!(s.lux, None);
    assert_eq!(s.forecast_temperature, None);
    assert_eq!(s.humidity, None);
}

#[test]
fn object_members_in_order_last_wins() {
    let members = vec![
        member("outside", num(1.0)),
        member("name", JsonValue::Other),
        member("outdoor", num(2.0)),
        member("humidity", num(45.0)),
    ];
    let s = snapshot_from_object(&members).unwrap();
    assert_eq!(s.outside_temperature, Some(2.0f32.to_bits()));
    assert_eq!(s.humidity, Some(45.0f32.to_bits()));
}

#[test]
fn object_with_only_humidity_is_no_reading() {
    let members = vec![member("humidity", num(45.0)), member("status", JsonValue::Other)];
    assert_eq!(snapshot_from_object(&members), None);
    assert_eq!(snapshot_from_object(&vec![]), None);
}

#[test]
fn find_member_takes_first_match() {
    let members = vec![member("a", num(1.0)), member("b", num(2.0)), member("b", num(3.0))];
    assert_eq!(find_member(&members, "b"), Some(1));
    assert_eq!(find_member(&members, "c"), None);
}

#[test]
fn plain_number_is_outside_temperature() {
    let s = parse_payload(None, Some(7.5f32.to_bits()), &None).unwrap();
    assert_eq!(s.outside_temperature, Some(7.5f32.to_bits()));
    assert_eq!(s.indoor_temperature, None);
}

#[test]
fn unkeyed_object_is_read_member_by_member() {
    let doc = JsonValue::Object(vec![member("indoor", num(21.0)), member("lux", num(300.0))]);
    let s = parse_payload(None, None, &Some(doc)).unwrap();
    assert_eq!(s.indoor_temperature, Some(21.0f32.to_bits()));
    assert_eq!(s.lux, Some(300.0f32.to_bits()));
}

#[test]
fn unkeyed_non_object_gives_nothing() {
    assert_eq!(parse_payload(None, None, &Some(JsonValue::Other)), None);
    assert_eq!(parse_payload(None, None, &None), None);
}

#[test]
fn keyed_number_sets_named_quantity() {
    let doc = JsonValue::Object(vec![member("temp", num(3.0)), member("illuminance", num(640.0))]);
    let s = parse_payload(Some("illuminance"), None, &Some(doc)).unwrap();
    assert_eq!(s.lux, Some(640.0f32.to_bits()));
    assert_eq!(s.forecast_temperature, None);
    let doc = JsonValue::Object(vec![member("temp", num(3.0))]);
    let s = parse_payload(Some("temp"), None, &Some(doc)).unwrap();
    assert_eq!(s.forecast_temperature, Some(3.0f32.to_bits()));
}

#[test]
fn keyed_object_is_read_member_by_member() {
    let inner = JsonValue::Object(vec![member("outside", num(-4.0)), member("humidity", num(80.0))]);
    let doc = JsonValue::Object(vec![member("weather", inner)]);
    let s = parse_payload(Some("weather"), Some(1.0f32.to_bits()), &Some(doc)).unwrap();
    assert_eq!(s.outside_temperature, Some((-4.0f32).to_bits()));
    assert_eq!(s.humidity, Some(80.0f32.to_bits()));
}

#[test]
fn keyed_payload_without_usable_member_gives_nothing() {
    let doc = JsonValue::Object(vec![member("weather", JsonValue::Other)]);
    assert_eq!(parse_payload(Some("weather"), None, &Some(doc)), None);
    let doc = JsonValue::Object(vec![member("other", num(1.0))]);
    assert_eq!(parse_payload(Some("weather"), None, &Some(doc)), None);
    assert_eq!(parse_payload(Some("weather"), Some(1.0f32.to_bits()), &None), None);
    assert_eq!(parse_payload(Some("weather"), None, &Some(num(2.0))), None);
}

#[test]
fn keyed_humidity_number_is_kept() {
    let doc = JsonValue::Object(vec![member("humidity", num(55.0))]);
    let s = parse_payload(Some("humidity"), None, &Some(doc)).unwrap();
    assert_eq!(s.humidity, Some(55.0f32.to_bits()));
    assert!(!s.has_reading());
}

#[test]
fn assignment_leaves_other_quantities() {
    let mut s = SensorSnapshot {
        outside_temperature: Some(1.0f32.to_bits()),
        indoor_temperature: Some(2.0f32.to_bits()),
        lux: Some(3.0f32.to_bits()),
        forecast_temperature: Some(4.0f32.to_bits()),
        humidity: Some(5.0f32.to_bits()),
    };
    let before = s;
    assign_key(&mut s, "lux", 9.0f32.to_bits());
    assert_eq!(s.lux, Some(9.0f32.to_bits()));
    assert_eq!(s.outside_temperature, before.outside_temperature);
    assert_eq!(s.indoor_temperature, before.indoor_temperature);
    assert_eq!(s.forecast_temperature, before.forecast_temperature);
    assert_eq!(s.humidity, before.humidity);
}
