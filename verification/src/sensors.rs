//! Sensor configuration, sensor failures, and the readings that the sensors
//! that need no connection derive from their data.

use vstd::prelude::*;
use vstd::string::*;
use crate::snapshot::SensorSnapshot;
use crate::text::join2;

verus! {

/// How a sensor is set up.
#[derive(Clone, Debug)]
pub enum SensorSettings {
    /// Reads a JSON file at `path`.
    JsonFile { path: String, friendly_name: String },
    /// Listens on an MQTT `topic` of `broker`; `payload_key` selects the member
    /// of a JSON message that carries the reading.
    Mqtt { friendly_name: String, broker: String, topic: String, payload_key: Option<String> },
    /// Produces made-up weather.
    DemoWeather { friendly_name: String },
}

impl SensorSettings {
    /// The name under which the sensor is shown.
    pub open spec fn spec_friendly_name(&self) -> Seq<char> {
        match self {
            SensorSettings::JsonFile { friendly_name, .. } => friendly_name@,
            SensorSettings::Mqtt { friendly_name, .. } => friendly_name@,
            SensorSettings::DemoWeather { friendly_name } => friendly_name@,
        }
    }

    /// The name under which the sensor is shown.
    pub fn friendly_name(&self) -> (r: &str)
        ensures
            r@ == self.spec_friendly_name(),
    {
        match self {
            SensorSettings::JsonFile { friendly_name, .. } => friendly_name.as_str(),
            SensorSettings::Mqtt { friendly_name, .. } => friendly_name.as_str(),
            SensorSettings::DemoWeather { friendly_name } => friendly_name.as_str(),
        }
    }
}

/// Why a sensor gave no reading.
#[derive(Debug)]
pub enum SensorError {
    /// Its data could not be read; the text describes the failure.
    Io(String),
    /// Its data is not the JSON expected; the text describes the failure.
    Json(String),
    /// Its broker could not be used; the text describes the failure.
    Mqtt(String),
    /// It has no reading; the text is the sensor's name.
    Empty(String),
}

impl SensorError {
    /// The text that describes the error.
    pub open spec fn spec_message(&self) -> Seq<char> {
        match self {
            SensorError::Io(m) => "i/o error: "@ + m@,
            SensorError::Json(m) => "json error: "@ + m@,
            SensorError::Mqtt(m) => "mqtt error: "@ + m@,
            SensorError::Empty(name) => "no data available from sensor "@ + name@,
        }
    }

    /// The text that describes the error.
    pub fn message(&self) -> (r: String)
        ensures
            r@ == self.spec_message(),
    {
        match self {
            SensorError::Io(m) => join2("i/o error: ", m.as_str()),
            SensorError::Json(m) => join2("json error: ", m.as_str()),
            SensorError::Mqtt(m) => join2("mqtt error: ", m.as_str()),
            SensorError::Empty(name) => join2("no data available from sensor ", name.as_str()),
        }
    }
}

/// A sensor that invents plausible weather.
pub struct DemoWeatherSensor {
    name: String,
}

impl DemoWeatherSensor {
    /// The sensor's name.
    pub closed spec fn spec_name(&self) -> Seq<char> {
        self.name@
    }

    /// A demo sensor called `name`.
    pub fn new(name: String) -> (r: DemoWeatherSensor)
        ensures
            r.spec_name() == name@,
    {
        DemoWeatherSensor { name }
    }

    /// The sensor's name.
    pub fn name(&self) -> (r: &str)
        ensures
            r@ == self.spec_name(),
    {
        self.name.as_str()
    }
}

/// The forecast block of a sensor file.
pub struct ForecastBlock {
    pub temperature: Option<u32>,
}

/// The content of a sensor file; each value is the bit pattern of a
/// single-precision number.
pub struct JsonSensorPayload {
    pub outside_temperature: Option<u32>,
    pub indoor_temperature: Option<u32>,
    pub lux: Option<u32>,
    pub forecast_temperature: Option<u32>,
    pub humidity: Option<u32>,
    pub weather_forecast: Option<ForecastBlock>,
}

impl JsonSensorPayload {
    /// The forecast temperature: the top-level one, else the one of the forecast block.
    pub open spec fn spec_forecast(&self) -> Option<u32> {
        match self.forecast_temperature {
            Some(t) => Some(t),
            None => match self.weather_forecast {
                Some(block) => block.temperature,
                None => None,
            },
        }
    }

    /// The snapshot that the file describes.
    pub open spec fn spec_snapshot(&self) -> SensorSnapshot {
        SensorSnapshot {
            outside_temperature: self.outside_temperature,
            indoor_temperature: self.indoor_temperature,
            lux: self.lux,
            forecast_temperature: self.spec_forecast(),
            humidity: self.humidity,
        }
    }
}

/// A sensor file's outside, indoor, illuminance and humidity values are
/// taken over as they are; its forecast is the top-level one when given,
/// else the forecast block's; and it gives a reading exactly when one of the
/// first four temperatures or illuminances is known.
pub proof fn file_values_are_taken_over(p: JsonSensorPayload)
    ensures
        p.spec_snapshot().outside_temperature == p.outside_temperature,
        p.spec_snapshot().indoor_temperature == p.indoor_temperature,
        p.spec_snapshot().lux == p.lux,
        p.spec_snapshot().humidity == p.humidity,
        p.forecast_temperature is Some ==> p.spec_snapshot().forecast_temperature
            == p.forecast_temperature,
        p.forecast_temperature is None ==> p.spec_snapshot().forecast_temperature == match p.weather_forecast {
            Some(block) => block.temperature,
            None => None,
        },
        p.spec_snapshot().spec_has_reading() <==> (p.outside_temperature is Some
            || p.indoor_temperature is Some || p.lux is Some || p.forecast_temperature is Some
            || (p.weather_forecast matches Some(block) && block.temperature is Some)),
{
}

/// A sensor that reads a JSON file.
pub struct JsonFileSensor {
    name: String,
    path: String,
}

impl JsonFileSensor {
    /// The sensor's name.
    pub closed spec fn spec_name(&self) -> Seq<char> {
        self.name@
    }

    /// The file that the sensor reads.
    pub closed spec fn spec_path(&self) -> Seq<char> {
        self.path@
    }

    /// A sensor called `name` that reads the file at `path`.
    pub fn new(name: String, path: String) -> (r: JsonFileSensor)
        ensures
            r.spec_name() == name@,
            r.spec_path() == path@,
    {
        JsonFileSensor { name, path }
    }

    /// The sensor's name.
    pub fn name(&self) -> (r: &str)
        ensures
            r@ == self.spec_name(),
    {
        self.name.as_str()
    }

    /// The file that the sensor reads.
    pub fn path(&self) -> (r: &str)
        ensures
            r@ == self.spec_path(),
    {
        self.path.as_str()
    }

    /// The reading that a decoded sensor file gives: the file's values, with
    /// the forecast block standing in for a missing forecast temperature; an
    /// `Empty` error when neither an outside, indoor or forecast temperature
    /// nor an illuminance is known.
    pub fn snapshot_from_payload(&self, payload: JsonSensorPayload) -> (r: Result<
        SensorSnapshot,
        SensorError,
    >)
        ensures
            payload.spec_snapshot().spec_has_reading() ==> r == Ok::<SensorSnapshot, SensorError>(
                payload.spec_snapshot(),
            ),
            !payload.spec_snapshot().spec_has_reading() ==> (r matches Err(SensorError::Empty(n))
                && n@ == self.spec_name()),
    {
        let forecast = match payload.forecast_temperature {
            Some(t) => Some(t),
            None => match payload.weather_forecast {
                Some(block) => block.temperature,
                None => None,
            },
        };
        let snapshot = SensorSnapshot {
            outside_temperature: payload.outside_temperature,
            indoor_temperature: payload.indoor_temperature,
            lux: payload.lux,
            forecast_temperature: forecast,
            humidity: payload.humidity,
        };
        if snapshot.has_reading() {
            Ok(snapshot)
        } else {
            Err(SensorError::Empty(self.name.clone()))
        }
    }
}

/// The reading of a subscribed sensor: the last snapshot that arrived, or an
/// `Empty` error naming the sensor when none has arrived yet.
pub fn latest_snapshot(sensor_name: &str, last: Option<SensorSnapshot>) -> (r: Result<
    SensorSnapshot,
    SensorError,
>)
    ensures
        last matches Some(s) ==> r == Ok::<SensorSnapshot, SensorError>(s),
        last is None ==> (r matches Err(SensorError::Empty(n)) && n@ == sensor_name@),
{
    match last {
        Some(s) => Ok(s),
        None => Err(SensorError::Empty(sensor_name.to_owned())),
    }
}

} // verus!
