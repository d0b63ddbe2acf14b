//! A combined view of the most recent sensor readings.

use vstd::prelude::*;

verus! {

/// The measurements known at one moment; each is the bit pattern of a
/// single-precision value, or absent when no sensor supplied it.
#[derive(Clone, Copy, Debug, PartialEq, Eq, Structural)]
pub struct SensorSnapshot {
    pub outside_temperature: Option<u32>,
    pub indoor_temperature: Option<u32>,
    pub lux: Option<u32>,
    pub forecast_temperature: Option<u32>,
    pub humidity: Option<u32>,
}

/// One of the measurements of a snapshot.
pub enum Quantity {
    Outside,
    Indoor,
    Lux,
    Forecast,
    Humidity,
}

/// The first of two optional values that is present.
pub open spec fn first_known(a: Option<u32>, b: Option<u32>) -> Option<u32> {
    if a is Some {
        a
    } else {
        b
    }
}

impl SensorSnapshot {
    /// The snapshot in which nothing is known.
    pub open spec fn blank() -> SensorSnapshot {
        SensorSnapshot {
            outside_temperature: None,
            indoor_temperature: None,
            lux: None,
            forecast_temperature: None,
            humidity: None,
        }
    }

    /// `self` completed, field by field, with what `other` knows.
    pub open spec fn merged(self, other: SensorSnapshot) -> SensorSnapshot {
        SensorSnapshot {
            outside_temperature: first_known(self.outside_temperature, other.outside_temperature),
            indoor_temperature: first_known(self.indoor_temperature, other.indoor_temperature),
            lux: first_known(self.lux, other.lux),
            forecast_temperature: first_known(self.forecast_temperature, other.forecast_temperature),
            humidity: first_known(self.humidity, other.humidity),
        }
    }

    /// The value of one measurement.
    pub open spec fn get(self, q: Quantity) -> Option<u32> {
        match q {
            Quantity::Outside => self.outside_temperature,
            Quantity::Indoor => self.indoor_temperature,
            Quantity::Lux => self.lux,
            Quantity::Forecast => self.forecast_temperature,
            Quantity::Humidity => self.humidity,
        }
    }

    /// Whether a temperature that the control law reads is known.
    pub open spec fn spec_has_temperature(self) -> bool {
        ||| self.outside_temperature is Some
        ||| self.indoor_temperature is Some
        ||| self.forecast_temperature is Some
    }

    /// Whether anything besides humidity is known.
    pub open spec fn spec_has_reading(self) -> bool {
        ||| self.outside_temperature is Some
        ||| self.indoor_temperature is Some
        ||| self.lux is Some
        ||| self.forecast_temperature is Some
    }

    /// A snapshot that knows nothing.
    pub fn empty() -> (r: SensorSnapshot)
        ensures
            r == SensorSnapshot::blank(),
    {
        SensorSnapshot {
            outside_temperature: None,
            indoor_temperature: None,
            lux: None,
            forecast_temperature: None,
            humidity: None,
        }
    }

    /// Fills each field that is still unknown with the value from `other`;
    /// fields already known are kept.
    pub fn merge(&mut self, other: SensorSnapshot)
        ensures
            *final(self) == old(self).merged(other),
    {
        if self.outside_temperature.is_none() {
            self.outside_temperature = other.outside_temperature;
        }
        if self.indoor_temperature.is_none() {
            self.indoor_temperature = other.indoor_temperature;
        }
        if self.lux.is_none() {
            self.lux = other.lux;
        }
        if self.forecast_temperature.is_none() {
            self.forecast_temperature = other.forecast_temperature;
        }
        if self.humidity.is_none() {
            self.humidity = other.humidity;
        }
    }

    /// Whether an outside, indoor or forecast temperature is known.
    pub fn has_temperature(&self) -> (r: bool)
        ensures
            r == self.spec_has_temperature(),
    {
        self.outside_temperature.is_some() || self.indoor_temperature.is_some()
            || self.forecast_temperature.is_some()
    }

    /// Whether an outside, indoor or forecast temperature or an illuminance is known.
    pub fn has_reading(&self) -> (r: bool)
        ensures
            r == self.spec_has_reading(),
    {
        self.outside_temperature.is_some() || self.indoor_temperature.is_some()
            || self.lux.is_some() || self.forecast_temperature.is_some()
    }
}

impl Default for SensorSnapshot {
    fn default() -> (r: SensorSnapshot)
        ensures
            r == SensorSnapshot::blank(),
    {
        SensorSnapshot::empty()
    }
}

/// The snapshot that merging `readings`, in order, into an empty one gives.
pub open spec fn merged_all(readings: Seq<SensorSnapshot>) -> SensorSnapshot
    decreases readings.len(),
{
    if readings.len() == 0 {
        SensorSnapshot::blank()
    } else {
        merged_all(readings.drop_last()).merged(readings.last())
    }
}

/// After merging a sequence of readings, each measurement is the one of the
/// earliest reading that knows it, and unknown when none does.
pub proof fn earliest_reading_wins(readings: Seq<SensorSnapshot>, q: Quantity)
    ensures
        (forall|i: int| 0 <= i < readings.len() ==> (#[trigger] readings[i].get(q)) is None)
            ==> merged_all(readings).get(q) is None,
        forall|i: int|
            0 <= i < readings.len() && (#[trigger] readings[i].get(q)) is Some && (forall|j: int|
                0 <= j < i ==> (#[trigger] readings[j].get(q)) is None) ==> merged_all(readings).get(q)
                == readings[i].get(q),
    decreases readings.len(),
{
    if readings.len() > 0 {
        let prefix = readings.drop_last();
        earliest_reading_wins(prefix, q);
        assert forall|i: int|
            0 <= i < readings.len() && (#[trigger] readings[i].get(q)) is Some && (forall|j: int|
                0 <= j < i ==> (#[trigger] readings[j].get(q)) is None) implies merged_all(readings).get(q)
            == readings[i].get(q) by {
            if i < readings.len() - 1 {
                assert(prefix[i] == readings[i]);
                assert forall|j: int| 0 <= j < i implies (#[trigger] prefix[j].get(q)) is None by {
                    assert(prefix[j] == readings[j]);
                }
            } else {
                assert forall|j: int| 0 <= j < prefix.len() implies (#[trigger] prefix[j].get(q)) is None by {
                    assert(prefix[j] == readings[j]);
                }
            }
        }
        if forall|i: int| 0 <= i < readings.len() ==> (#[trigger] readings[i].get(q)) is None {
            assert forall|j: int| 0 <= j < prefix.len() implies (#[trigger] prefix[j].get(q)) is None by {
                assert(prefix[j] == readings[j]);
            }
            assert(readings[readings.len() - 1].get(q) is None);
        }
    }
}

/// An outside, an indoor and a forecast temperature each count as a
/// temperature, and nothing else does: illuminance and humidity leave the
/// answer unchanged.
pub proof fn every_temperature_counts(s: SensorSnapshot)
    ensures
        s.outside_temperature is Some ==> s.spec_has_temperature(),
        s.indoor_temperature is Some ==> s.spec_has_temperature(),
        s.forecast_temperature is Some ==> s.spec_has_temperature(),
        s.outside_temperature is None && s.indoor_temperature is None && s.forecast_temperature is None
            ==> !s.spec_has_temperature(),
        (SensorSnapshot { lux: None, humidity: None, ..s }).spec_has_temperature()
            == s.spec_has_temperature(),
{
}

/// An outside, an indoor or a forecast temperature and an illuminance each
/// count as a reading; humidity alone does not, and it leaves the answer
/// unchanged.
pub proof fn every_reading_but_humidity_counts(s: SensorSnapshot)
    ensures
        s.outside_temperature is Some ==> s.spec_has_reading(),
        s.indoor_temperature is Some ==> s.spec_has_reading(),
        s.lux is Some ==> s.spec_has_reading(),
        s.forecast_temperature is Some ==> s.spec_has_reading(),
        s.outside_temperature is None && s.indoor_temperature is None && s.lux is None
            && s.forecast_temperature is None ==> !s.spec_has_reading(),
        (SensorSnapshot { humidity: None, ..s }).spec_has_reading() == s.spec_has_reading(),
{
}

/// Merging never loses a known value, and fills a gap exactly when the
/// other snapshot knows that value.
pub proof fn merge_keeps_known_values(a: SensorSnapshot, b: SensorSnapshot)
    ensures
        a.outside_temperature is Some ==> a.merged(b).outside_temperature == a.outside_temperature,
        a.indoor_temperature is Some ==> a.merged(b).indoor_temperature == a.indoor_temperature,
        a.lux is Some ==> a.merged(b).lux == a.lux,
        a.forecast_temperature is Some ==> a.merged(b).forecast_temperature == a.forecast_temperature,
        a.humidity is Some ==> a.merged(b).humidity == a.humidity,
        a.outside_temperature is None ==> a.merged(b).outside_temperature == b.outside_temperature,
        a.indoor_temperature is None ==> a.merged(b).indoor_temperature == b.indoor_temperature,
        a.lux is None ==> a.merged(b).lux == b.lux,
        a.forecast_temperature is None ==> a.merged(b).forecast_temperature == b.forecast_temperature,
        a.humidity is None ==> a.merged(b).humidity == b.humidity,
{
}

/// The empty snapshot is a neutral element of merging, on either side.
pub proof fn merge_with_blank_is_identity(a: SensorSnapshot)
    ensures
        SensorSnapshot::blank().merged(a) == a,
        a.merged(SensorSnapshot::blank()) == a,
{
}

/// Merging a sequence of readings does not depend on how it is grouped.
pub proof fn merge_is_associative(a: SensorSnapshot, b: SensorSnapshot, c: SensorSnapshot)
    ensures
        a.merged(b).merged(c) == a.merged(b.merged(c)),
{
}

/// Merging a snapshot into itself changes nothing.
pub proof fn merge_is_idempotent(a: SensorSnapshot)
    ensures
        a.merged(a) == a,
{
}

/// A merged snapshot has a temperature or a reading whenever either part has one.
pub proof fn merge_preserves_knowledge(a: SensorSnapshot, b: SensorSnapshot)
    ensures
        a.merged(b).spec_has_temperature() == (a.spec_has_temperature() || b.spec_has_temperature()),
        a.merged(b).spec_has_reading() == (a.spec_has_reading() || b.spec_has_reading()),
{
}

} // verus!
