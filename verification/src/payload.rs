//! Interpretation of messages published on a sensor topic.
//!
//! A message reaches this module already decoded: as the number that its
//! trimmed text denotes, if it denotes one, and as the JSON document that it
//! holds, if it holds one. Numbers are bit patterns of single-precision values.

use vstd::prelude::*;
use crate::snapshot::{Quantity, SensorSnapshot};
use crate::text::str_equals;

verus! {

/// A decoded JSON value, reduced to what the interpretation reads.
pub enum JsonValue {
    /// A JSON number.
    Number(u32),
    /// A JSON object, with its members in the order in which they are visited.
    Object(Vec<JsonMember>),
    /// Any other JSON value (string, boolean, array, null).
    Other,
}

/// One member of a JSON object.
pub struct JsonMember {
    pub key: String,
    pub value: JsonValue,
}

/// The quantity that a key names; a key that names none of them is taken as a
/// forecast temperature.
pub open spec fn quantity_of(key: Seq<char>) -> Quantity {
    if key == "outside_temperature"@ || key == "outside"@ || key == "outdoor"@ {
        Quantity::Outside
    } else if key == "indoor_temperature"@ || key == "indoor"@ || key == "room"@ {
        Quantity::Indoor
    } else if key == "lux"@ || key == "illuminance"@ {
        Quantity::Lux
    } else if key == "forecast_temperature"@ || key == "forecast"@ {
        Quantity::Forecast
    } else if key == "humidity"@ {
        Quantity::Humidity
    } else {
        Quantity::Forecast
    }
}

/// `s` with the quantity that `key` names set to `value`.
pub open spec fn assigned(s: SensorSnapshot, key: Seq<char>, value: u32) -> SensorSnapshot {
    match quantity_of(key) {
        Quantity::Outside => SensorSnapshot { outside_temperature: Some(value), ..s },
        Quantity::Indoor => SensorSnapshot { indoor_temperature: Some(value), ..s },
        Quantity::Lux => SensorSnapshot { lux: Some(value), ..s },
        Quantity::Forecast => SensorSnapshot { forecast_temperature: Some(value), ..s },
        Quantity::Humidity => SensorSnapshot { humidity: Some(value), ..s },
    }
}

/// Assigning a value under a key sets the quantity that the key names and
/// leaves every other quantity as it was.
pub proof fn assignment_sets_only_the_named_quantity(
    s: SensorSnapshot,
    key: Seq<char>,
    value: u32,
    other: Quantity,
)
    ensures
        assigned(s, key, value).get(quantity_of(key)) == Some(value),
        other != quantity_of(key) ==> assigned(s, key, value).get(other) == s.get(other),
{
}

/// `s` after assigning, in order, every numeric member of `members`.
pub open spec fn assigned_members(s: SensorSnapshot, members: Seq<JsonMember>) -> SensorSnapshot
    decreases members.len(),
{
    if members.len() == 0 {
        s
    } else {
        let prev = assigned_members(s, members.drop_last());
        match members.last().value {
            JsonValue::Number(n) => assigned(prev, members.last().key@, n),
            _ => prev,
        }
    }
}

/// The snapshot that an object's numeric members describe, when it holds a
/// reading other than humidity.
pub open spec fn members_snapshot(members: Seq<JsonMember>) -> Option<SensorSnapshot> {
    let s = assigned_members(SensorSnapshot::blank(), members);
    if s.spec_has_reading() {
        Some(s)
    } else {
        None
    }
}

/// The keys that name each quantity; every other key is taken as a forecast.
pub proof fn each_alias_names_its_quantity(key: Seq<char>)
    ensures
        key == "outside_temperature"@ || key == "outside"@ || key == "outdoor"@ ==> quantity_of(key)
            == Quantity::Outside,
        key == "indoor_temperature"@ || key == "indoor"@ || key == "room"@ ==> quantity_of(key)
            == Quantity::Indoor,
        key == "lux"@ || key == "illuminance"@ ==> quantity_of(key) == Quantity::Lux,
        key == "humidity"@ ==> quantity_of(key) == Quantity::Humidity,
        key != "outside_temperature"@ && key != "outside"@ && key != "outdoor"@ && key
            != "indoor_temperature"@ && key != "indoor"@ && key != "room"@ && key != "lux"@ && key
            != "illuminance"@ && key != "humidity"@ ==> quantity_of(key) == Quantity::Forecast,
{
    reveal_strlit("outside_temperature");
    reveal_strlit("outside");
    reveal_strlit("outdoor");
    reveal_strlit("indoor_temperature");
    reveal_strlit("indoor");
    reveal_strlit("room");
    reveal_strlit("lux");
    reveal_strlit("illuminance");
    reveal_strlit("forecast_temperature");
    reveal_strlit("forecast");
    reveal_strlit("humidity");
    if key == "outside_temperature"@ || key == "outside"@ || key == "outdoor"@ {
        assert(key[0] == 'o');
    }
    if key == "indoor_temperature"@ || key == "indoor"@ {
        assert(key[0] == 'i' && key[1] == 'n');
    }
    if key == "room"@ {
        assert(key[0] == 'r');
    }
    if key == "lux"@ {
        assert(key[0] == 'l');
    }
    if key == "illuminance"@ {
        assert(key[0] == 'i' && key[1] == 'l');
    }
    if key == "humidity"@ {
        assert(key[0] == 'h');
    }
}

/// Only the key "humidity" names the humidity.
proof fn humidity_is_named_by_one_key(key: Seq<char>)
    ensures
        (quantity_of(key) == Quantity::Humidity) <==> key == "humidity"@,
{
    reveal_strlit("outside_temperature");
    reveal_strlit("outside");
    reveal_strlit("outdoor");
    reveal_strlit("indoor_temperature");
    reveal_strlit("indoor");
    reveal_strlit("room");
    reveal_strlit("lux");
    reveal_strlit("illuminance");
    reveal_strlit("forecast_temperature");
    reveal_strlit("forecast");
    reveal_strlit("humidity");
    if key == "humidity"@ {
        assert(key.len() == 8);
        assert(key[0] == 'h');
    }
}

/// Assigning members never forgets a known quantity.
proof fn assigned_members_keeps_known(s: SensorSnapshot, members: Seq<JsonMember>, q: Quantity)
    requires
        s.get(q) is Some,
    ensures
        assigned_members(s, members).get(q) is Some,
    decreases members.len(),
{
    if members.len() > 0 {
        assigned_members_keeps_known(s, members.drop_last(), q);
    }
}

/// Each numeric member leaves the quantity that its key names known.
proof fn numeric_member_is_known(s: SensorSnapshot, members: Seq<JsonMember>, i: int)
    requires
        0 <= i < members.len(),
        members[i].value is Number,
    ensures
        assigned_members(s, members).get(quantity_of(members[i].key@)) is Some,
    decreases members.len(),
{
    let prefix = members.drop_last();
    if i < members.len() - 1 {
        assert(prefix[i] == members[i]);
        numeric_member_is_known(s, prefix, i);
        let q = quantity_of(members[i].key@);
        let prev = assigned_members(s, prefix);
        match members.last().value {
            JsonValue::Number(n) => {
                assignment_sets_only_the_named_quantity(prev, members.last().key@, n, q);
            },
            _ => {},
        }
    } else {
        match members.last().value {
            JsonValue::Number(n) => {
                assignment_sets_only_the_named_quantity(
                    assigned_members(s, prefix),
                    members.last().key@,
                    n,
                    quantity_of(members.last().key@),
                );
            },
            _ => {},
        }
    }
}

/// A quantity that no numeric member names stays as it was.
proof fn unnamed_quantity_is_untouched(s: SensorSnapshot, members: Seq<JsonMember>, q: Quantity)
    requires
        forall|j: int|
            0 <= j < members.len() && (#[trigger] members[j]).value is Number ==> quantity_of(
                members[j].key@,
            ) != q,
    ensures
        assigned_members(s, members).get(q) == s.get(q),
    decreases members.len(),
{
    if members.len() > 0 {
        let prefix = members.drop_last();
        assert forall|j: int|
            0 <= j < prefix.len() && (#[trigger] prefix[j]).value is Number implies quantity_of(
                prefix[j].key@,
            ) != q by {
            assert(prefix[j] == members[j]);
        }
        unnamed_quantity_is_untouched(s, prefix, q);
        match members.last().value {
            JsonValue::Number(n) => {
                assert(members[members.len() - 1].value is Number);
                assignment_sets_only_the_named_quantity(
                    assigned_members(s, prefix),
                    members.last().key@,
                    n,
                    q,
                );
            },
            _ => {},
        }
    }
}

/// An object gives a reading exactly when one of its members is a number
/// under a key other than "humidity": an illuminance, a temperature, or an
/// unknown key (taken as a forecast) all count.
pub proof fn object_reading_needs_a_number_besides_humidity(members: Seq<JsonMember>)
    ensures
        members_snapshot(members) is Some <==> exists|i: int|
            0 <= i < members.len() && (#[trigger] members[i]).value is Number && members[i].key@
                != "humidity"@,
{
    let s = assigned_members(SensorSnapshot::blank(), members);
    if exists|i: int|
        0 <= i < members.len() && (#[trigger] members[i]).value is Number && members[i].key@
            != "humidity"@ {
        let i = choose|i: int|
            0 <= i < members.len() && (#[trigger] members[i]).value is Number && members[i].key@
                != "humidity"@;
        numeric_member_is_known(SensorSnapshot::blank(), members, i);
        humidity_is_named_by_one_key(members[i].key@);
        assert(s.spec_has_reading());
    } else {
        assert forall|j: int|
            0 <= j < members.len() && (#[trigger] members[j]).value is Number implies quantity_of(
                members[j].key@,
            ) == Quantity::Humidity by {
            humidity_is_named_by_one_key(members[j].key@);
        }
        unnamed_quantity_is_untouched(SensorSnapshot::blank(), members, Quantity::Outside);
        unnamed_quantity_is_untouched(SensorSnapshot::blank(), members, Quantity::Indoor);
        unnamed_quantity_is_untouched(SensorSnapshot::blank(), members, Quantity::Lux);
        unnamed_quantity_is_untouched(SensorSnapshot::blank(), members, Quantity::Forecast);
        assert(!s.spec_has_reading());
    }
}

/// An object whose only member is a number under "lux" gives exactly that
/// illuminance, and nothing else.
pub proof fn lone_illuminance_is_a_reading(key: String, value: u32)
    requires
        key@ == "lux"@,
    ensures
        members_snapshot(seq![JsonMember { key, value: JsonValue::Number(value) }]) == Some(
            SensorSnapshot { lux: Some(value), ..SensorSnapshot::blank() },
        ),
{
    reveal_strlit("lux");
    reveal_strlit("outside_temperature");
    reveal_strlit("outside");
    reveal_strlit("outdoor");
    reveal_strlit("indoor_temperature");
    reveal_strlit("indoor");
    reveal_strlit("room");
    let m = seq![JsonMember { key, value: JsonValue::Number(value) }];
    assert(m.drop_last() =~= Seq::<JsonMember>::empty());
    assert(key@.len() == 3);
    assert(key@[0] == 'l');
    assert(quantity_of(key@) == Quantity::Lux);
    assert(assigned_members(SensorSnapshot::blank(), m.drop_last()) == SensorSnapshot::blank());
    assert(m.last().key@ == key@);
    let r = assigned_members(SensorSnapshot::blank(), m);
    assert(r == assigned(SensorSnapshot::blank(), key@, value));
    assert(r == SensorSnapshot { lux: Some(value), ..SensorSnapshot::blank() });
    assert(r.spec_has_reading());
}

/// The index of the first member whose key is `key`.
#[verifier::opaque]
pub open spec fn first_index_of(members: Seq<JsonMember>, key: Seq<char>) -> Option<int> {
    if exists|i: int| 0 <= i < members.len() && members[i].key@ == key {
        Some(
            choose|i: int|
                0 <= i < members.len() && members[i].key@ == key && (forall|j: int|
                    0 <= j < i ==> members[j].key@ != key),
        )
    } else {
        None
    }
}

/// What a message describes, given the number its text denotes and the JSON
/// document it holds; `key`, when given, selects the member of the document
/// that carries the reading.
pub open spec fn payload_snapshot(
    key: Option<Seq<char>>,
    number: Option<u32>,
    document: Option<JsonValue>,
) -> Option<SensorSnapshot> {
    match key {
        Some(k) => match document {
            Some(JsonValue::Object(members)) => match first_index_of(members@, k) {
                Some(i) => match members@[i].value {
                    JsonValue::Number(n) => Some(assigned(SensorSnapshot::blank(), k, n)),
                    JsonValue::Object(inner) => members_snapshot(inner@),
                    JsonValue::Other => None,
                },
                None => None,
            },
            _ => None,
        },
        None => match number {
            Some(n) => Some(SensorSnapshot { outside_temperature: Some(n), ..SensorSnapshot::blank() }),
            None => match document {
                Some(JsonValue::Object(members)) => members_snapshot(members@),
                _ => None,
            },
        },
    }
}

/// Sets the quantity that `key` names to `value`.
pub fn assign_key(snapshot: &mut SensorSnapshot, key: &str, value: u32)
    ensures
        *final(snapshot) == assigned(*old(snapshot), key@, value),
{
    if str_equals(key, "outside_temperature") || str_equals(key, "outside") || str_equals(
        key,
        "outdoor",
    ) {
        snapshot.outside_temperature = Some(value);
    } else if str_equals(key, "indoor_temperature") || str_equals(key, "indoor") || str_equals(
        key,
        "room",
    ) {
        snapshot.indoor_temperature = Some(value);
    } else if str_equals(key, "lux") || str_equals(key, "illuminance") {
        snapshot.lux = Some(value);
    } else if str_equals(key, "forecast_temperature") || str_equals(key, "forecast") {
        snapshot.forecast_temperature = Some(value);
    } else if str_equals(key, "humidity") {
        snapshot.humidity = Some(value);
    } else {
        snapshot.forecast_temperature = Some(value);
    }
}

/// A snapshot in which only the quantity that `key` names is known.
pub fn build_single_value_snapshot(key: &str, value: u32) -> (r: SensorSnapshot)
    ensures
        r == assigned(SensorSnapshot::blank(), key@, value),
{
    let mut snapshot = SensorSnapshot::empty();
    assign_key(&mut snapshot, key, value);
    snapshot
}

/// The snapshot that the numeric members of an object describe; `None` when
/// they give no reading other than humidity.
pub fn snapshot_from_object(members: &Vec<JsonMember>) -> (r: Option<SensorSnapshot>)
    ensures
        r == members_snapshot(members@),
{
    let mut snapshot = SensorSnapshot::empty();
    let mut i: usize = 0;
    while i < members.len()
        invariant
            i <= members@.len(),
            snapshot == assigned_members(SensorSnapshot::blank(), members@.subrange(0, i as int)),
        decreases members@.len() - i,
    {
        assert(members@.subrange(0, i + 1).drop_last() =~= members@.subrange(0, i as int));
        let member = &members[i];
        match &member.value {
            JsonValue::Number(n) => {
                assign_key(&mut snapshot, member.key.as_str(), *n);
            },
            _ => {},
        }
        i = i + 1;
    }
    assert(members@.subrange(0, i as int) =~= members@);
    if snapshot.has_reading() {
        Some(snapshot)
    } else {
        None
    }
}

/// The index of the first member whose key is `key`, if any.
pub fn find_member(members: &Vec<JsonMember>, key: &str) -> (r: Option<usize>)
    ensures
        match r {
            Some(i) => i < members@.len() && first_index_of(members@, key@) == Some(i as int),
            None => first_index_of(members@, key@) is None,
        },
{
    reveal(first_index_of);
    let mut i: usize = 0;
    while i < members.len()
        invariant
            i <= members@.len(),
            forall|j: int| 0 <= j < i ==> members@[j].key@ != key@,
        decreases members@.len() - i,
    {
        if str_equals(members[i].key.as_str(), key) {
            proof {
                assert(0 <= i < members@.len() && members@[i as int].key@ == key@ && (forall|j: int|
                    0 <= j < i ==> members@[j].key@ != key@));
                let w: int = choose|w: int|
                    0 <= w < members@.len() && members@[w].key@ == key@ && (forall|j: int|
                        0 <= j < w ==> members@[j].key@ != key@);
                if w < i {
                    assert(members@[w].key@ != key@);
                } else if w > i {
                    assert(members@[i as int].key@ != key@);
                }
                assert(w == i);
                reveal(first_index_of);
            }
            return Some(i);
        }
        i = i + 1;
    }
    None
}

/// The reading that the member keyed `key` of `document` describes.
fn keyed_snapshot(key: &str, document: &Option<JsonValue>) -> (r: Option<SensorSnapshot>)
    ensures
        r == payload_snapshot(Some(key@), None, *document),
{
    match document {
        Some(JsonValue::Object(members)) => {
            match find_member(members, key) {
                Some(i) => {
                    match &members[i].value {
                        JsonValue::Number(n) => Some(build_single_value_snapshot(key, *n)),
                        JsonValue::Object(inner) => snapshot_from_object(inner),
                        JsonValue::Other => None,
                    }
                },
                None => None,
            }
        },
        _ => None,
    }
}

/// What a message describes, or `None` when it carries no usable reading.
///
/// With a `key`, the reading is the member of the document's top-level object
/// that has this key: a number sets the quantity that the key names, an object
/// is read member by member. Without a key, a message whose text is a number
/// gives the outside temperature, and one that holds an object is read member
/// by member.
pub fn parse_payload(key: Option<&str>, number: Option<u32>, document: &Option<JsonValue>) -> (r:
    Option<SensorSnapshot>)
    ensures
        r == payload_snapshot(
            match key {
                Some(k) => Some(k@),
                None => None,
            },
            number,
            *document,
        ),
{
    match key {
        Some(k) => keyed_snapshot(k, document),
        None => {
            match number {
                Some(n) => {
                    let mut snapshot = SensorSnapshot::empty();
                    snapshot.outside_temperature = Some(n);
                    Some(snapshot)
                },
                None => {
                    match document {
                        Some(JsonValue::Object(members)) => snapshot_from_object(members),
                        _ => None,
                    }
                },
            }
        },
    }
}

} // verus!
