//! The controller's settings and how they are changed at run time.

use vstd::prelude::*;
use std::time::Duration;
use crate::outputs::OutputSettings;
use crate::sensors::SensorSettings;

verus! {

/// Twenty-one degrees Celsius, as a single-precision bit pattern.
pub const DEFAULT_COMFORT_TEMPERATURE: u32 = 0x41A8_0000;

/// Eighteen and a half degrees Celsius, as a single-precision bit pattern.
pub const DEFAULT_SETBACK_TEMPERATURE: u32 = 0x4194_0000;

/// Minus ten degrees Celsius, as a single-precision bit pattern.
pub const DEFAULT_DESIGN_OUTDOOR_TEMPERATURE: u32 = 0xC120_0000;

/// A heating-curve slope of one and six tenths, as a single-precision bit pattern.
pub const DEFAULT_HEATING_CURVE_SLOPE: u32 = 0x3FCC_CCCD;

/// Thirty degrees Celsius, as a single-precision bit pattern.
pub const DEFAULT_HEATING_CURVE_BASE: u32 = 0x41F0_0000;

/// Eight hundred lux, as a single-precision bit pattern.
pub const DEFAULT_LUX_REFERENCE: u32 = 0x4448_0000;

/// An illuminance influence of three, as a single-precision bit pattern.
pub const DEFAULT_LUX_INFLUENCE: u32 = 0x4040_0000;

/// Control runs per day when nothing else is set.
pub const DEFAULT_CONTROL_RUNS_PER_DAY: u32 = 24;

/// Zero, as a single-precision bit pattern.
pub const DEFAULT_OUTPUT_MIN: u32 = 0x0000_0000;

/// One, as a single-precision bit pattern.
pub const DEFAULT_OUTPUT_MAX: u32 = 0x3F80_0000;

/// Seconds in a day.
pub const SECONDS_PER_DAY: u64 = 86400;

/// The controller's settings; every numeric setting but the number of
/// control runs is the bit pattern of a single-precision number.
#[derive(Clone, Debug)]
pub struct HeatingConfig {
    pub comfort_temperature: u32,
    pub setback_temperature: u32,
    pub design_outdoor_temperature: u32,
    pub heating_curve_slope: u32,
    pub heating_curve_base: u32,
    pub lux_reference: u32,
    pub lux_influence: u32,
    pub control_runs_per_day: u32,
    pub output_min: u32,
    pub output_max: u32,
    pub sensors: Vec<SensorSettings>,
    pub outputs: Vec<OutputSettings>,
}

/// A change to some of the settings; an absent field leaves its setting as it is.
#[derive(Clone, Debug)]
pub struct HeatingConfigUpdate {
    pub comfort_temperature: Option<u32>,
    pub setback_temperature: Option<u32>,
    pub design_outdoor_temperature: Option<u32>,
    pub heating_curve_slope: Option<u32>,
    pub heating_curve_base: Option<u32>,
    pub lux_reference: Option<u32>,
    pub lux_influence: Option<u32>,
    pub control_runs_per_day: Option<u32>,
    pub output_min: Option<u32>,
    pub output_max: Option<u32>,
    pub sensors: Option<Vec<SensorSettings>>,
    pub outputs: Option<Vec<OutputSettings>>,
}

/// The new value of a setting: the update's, if it gives one.
pub open spec fn chosen<T>(update: Option<T>, current: T) -> T {
    match update {
        Some(v) => v,
        None => current,
    }
}

/// A number of runs per day raised to at least one.
pub open spec fn at_least_one(runs: u32) -> u32 {
    if runs < 1 {
        1
    } else {
        runs
    }
}

/// The later of two optional changes to one setting.
pub open spec fn later<T>(first: Option<T>, second: Option<T>) -> Option<T> {
    if second is Some {
        second
    } else {
        first
    }
}

impl HeatingConfigUpdate {
    /// The update that changes nothing.
    pub open spec fn spec_nothing() -> HeatingConfigUpdate {
        HeatingConfigUpdate {
            comfort_temperature: None,
            setback_temperature: None,
            design_outdoor_temperature: None,
            heating_curve_slope: None,
            heating_curve_base: None,
            lux_reference: None,
            lux_influence: None,
            control_runs_per_day: None,
            output_min: None,
            output_max: None,
            sensors: None,
            outputs: None,
        }
    }

    /// The single update that has the effect of `self` followed by `next`.
    pub open spec fn followed_by(self, next: HeatingConfigUpdate) -> HeatingConfigUpdate {
        HeatingConfigUpdate {
            comfort_temperature: later(self.comfort_temperature, next.comfort_temperature),
            setback_temperature: later(self.setback_temperature, next.setback_temperature),
            design_outdoor_temperature: later(
                self.design_outdoor_temperature,
                next.design_outdoor_temperature,
            ),
            heating_curve_slope: later(self.heating_curve_slope, next.heating_curve_slope),
            heating_curve_base: later(self.heating_curve_base, next.heating_curve_base),
            lux_reference: later(self.lux_reference, next.lux_reference),
            lux_influence: later(self.lux_influence, next.lux_influence),
            control_runs_per_day: later(self.control_runs_per_day, next.control_runs_per_day),
            output_min: later(self.output_min, next.output_min),
            output_max: later(self.output_max, next.output_max),
            sensors: later(self.sensors, next.sensors),
            outputs: later(self.outputs, next.outputs),
        }
    }

    /// The update that changes nothing.
    pub fn nothing() -> (r: HeatingConfigUpdate)
        ensures
            r == HeatingConfigUpdate::spec_nothing(),
    {
        HeatingConfigUpdate {
            comfort_temperature: None,
            setback_temperature: None,
            design_outdoor_temperature: None,
            heating_curve_slope: None,
            heating_curve_base: None,
            lux_reference: None,
            lux_influence: None,
            control_runs_per_day: None,
            output_min: None,
            output_max: None,
            sensors: None,
            outputs: None,
        }
    }
}

impl Default for HeatingConfigUpdate {
    fn default() -> (r: HeatingConfigUpdate)
        ensures
            r == HeatingConfigUpdate::spec_nothing(),
    {
        HeatingConfigUpdate::nothing()
    }
}

impl HeatingConfig {
    /// The settings after `update`: each setting that it gives is taken, the
    /// number of runs per day raised to at least one; the rest stay.
    pub open spec fn updated(self, update: HeatingConfigUpdate) -> HeatingConfig {
        HeatingConfig {
            comfort_temperature: chosen(update.comfort_temperature, self.comfort_temperature),
            setback_temperature: chosen(update.setback_temperature, self.setback_temperature),
            design_outdoor_temperature: chosen(
                update.design_outdoor_temperature,
                self.design_outdoor_temperature,
            ),
            heating_curve_slope: chosen(update.heating_curve_slope, self.heating_curve_slope),
            heating_curve_base: chosen(update.heating_curve_base, self.heating_curve_base),
            lux_reference: chosen(update.lux_reference, self.lux_reference),
            lux_influence: chosen(update.lux_influence, self.lux_influence),
            control_runs_per_day: match update.control_runs_per_day {
                Some(runs) => at_least_one(runs),
                None => self.control_runs_per_day,
            },
            output_min: chosen(update.output_min, self.output_min),
            output_max: chosen(update.output_max, self.output_max),
            sensors: chosen(update.sensors, self.sensors),
            outputs: chosen(update.outputs, self.outputs),
        }
    }

    /// Seconds between two control runs: a day divided evenly among the runs,
    /// at least one run being assumed.
    pub open spec fn spec_interval_secs(self) -> u64 {
        (SECONDS_PER_DAY / (at_least_one(self.control_runs_per_day) as u64)) as u64
    }

    /// Whether these are the settings used when none are given.
    pub open spec fn is_default(self) -> bool {
        &&& self.comfort_temperature == DEFAULT_COMFORT_TEMPERATURE
        &&& self.setback_temperature == DEFAULT_SETBACK_TEMPERATURE
        &&& self.design_outdoor_temperature == DEFAULT_DESIGN_OUTDOOR_TEMPERATURE
        &&& self.heating_curve_slope == DEFAULT_HEATING_CURVE_SLOPE
        &&& self.heating_curve_base == DEFAULT_HEATING_CURVE_BASE
        &&& self.lux_reference == DEFAULT_LUX_REFERENCE
        &&& self.lux_influence == DEFAULT_LUX_INFLUENCE
        &&& self.control_runs_per_day == DEFAULT_CONTROL_RUNS_PER_DAY
        &&& self.output_min == DEFAULT_OUTPUT_MIN
        &&& self.output_max == DEFAULT_OUTPUT_MAX
        &&& self.sensors@.len() == 1
        &&& self.sensors@[0] matches SensorSettings::JsonFile { path, friendly_name }
        &&& path@ == "data/sample_environment.json"@
        &&& friendly_name@ == "Sample JSON"@
        &&& self.outputs@.len() == 1
        &&& self.outputs@[0] matches OutputSettings::Log { name }
        &&& name@ == "Console"@
    }

    /// The settings used when none are given: comfort at twenty-one degrees,
    /// setback at eighteen and a half, twenty-four control runs a day, the
    /// sample JSON file as the only sensor and the console log as the only
    /// output.
    pub fn default_config() -> (r: HeatingConfig)
        ensures
            r.is_default(),
    {
        let sensor = SensorSettings::JsonFile {
            path: "data/sample_environment.json".to_owned(),
            friendly_name: "Sample JSON".to_owned(),
        };
        let output = OutputSettings::Log { name: "Console".to_owned() };
        let mut sensors: Vec<SensorSettings> = Vec::new();
        sensors.push(sensor);
        let mut outputs: Vec<OutputSettings> = Vec::new();
        outputs.push(output);
        HeatingConfig {
            comfort_temperature: DEFAULT_COMFORT_TEMPERATURE,
            setback_temperature: DEFAULT_SETBACK_TEMPERATURE,
            design_outdoor_temperature: DEFAULT_DESIGN_OUTDOOR_TEMPERATURE,
            heating_curve_slope: DEFAULT_HEATING_CURVE_SLOPE,
            heating_curve_base: DEFAULT_HEATING_CURVE_BASE,
            lux_reference: DEFAULT_LUX_REFERENCE,
            lux_influence: DEFAULT_LUX_INFLUENCE,
            control_runs_per_day: DEFAULT_CONTROL_RUNS_PER_DAY,
            output_min: DEFAULT_OUTPUT_MIN,
            output_max: DEFAULT_OUTPUT_MAX,
            sensors,
            outputs,
        }
    }

    /// Seconds between two control runs: a day divided evenly among the runs
    /// per day, a setting of zero counting as one run.
    pub fn interval_secs(&self) -> (r: u64)
        ensures
            r == self.spec_interval_secs(),
    {
        let runs: u32 = if self.control_runs_per_day < 1 {
            1
        } else {
            self.control_runs_per_day
        };
        SECONDS_PER_DAY / (runs as u64)
    }

    /// The time between two control runs.
    pub fn interval_duration(&self) -> (r: Duration)
        ensures
            r == duration_from_secs(self.spec_interval_secs()),
    {
        seconds(self.interval_secs())
    }

    /// Applies `update`: each setting that it gives is taken, the number of
    /// runs per day raised to at least one; the other settings stay.
    pub fn update(&mut self, update: HeatingConfigUpdate)
        ensures
            *final(self) == old(self).updated(update),
    {
        if let Some(value) = update.comfort_temperature {
            self.comfort_temperature = value;
        }
        if let Some(value) = update.setback_temperature {
            self.setback_temperature = value;
        }
        if let Some(value) = update.design_outdoor_temperature {
            self.design_outdoor_temperature = value;
        }
        if let Some(value) = update.heating_curve_slope {
            self.heating_curve_slope = value;
        }
        if let Some(value) = update.heating_curve_base {
            self.heating_curve_base = value;
        }
        if let Some(value) = update.lux_reference {
            self.lux_reference = value;
        }
        if let Some(value) = update.lux_influence {
            self.lux_influence = value;
        }
        if let Some(value) = update.control_runs_per_day {
            self.control_runs_per_day = if value < 1 {
                1
            } else {
                value
            };
        }
        if let Some(value) = update.output_min {
            self.output_min = value;
        }
        if let Some(value) = update.output_max {
            self.output_max = value;
        }
        if let Some(sensors) = update.sensors {
            self.sensors = sensors;
        }
        if let Some(outputs) = update.outputs {
            self.outputs = outputs;
        }
    }

    /// The names of the configured sensors, in order.
    pub fn sensor_names(&self) -> (r: Vec<String>)
        ensures
            r@.len() == self.sensors@.len(),
            forall|i: int| 0 <= i < r@.len() ==> #[trigger] r@[i]@ == self.sensors@[i].spec_friendly_name(),
    {
        let mut names: Vec<String> = Vec::new();
        let mut i: usize = 0;
        while i < self.sensors.len()
            invariant
                i <= self.sensors@.len(),
                names@.len() == i,
                forall|j: int| 0 <= j < i ==> #[trigger] names@[j]@ == self.sensors@[j].spec_friendly_name(),
            decreases self.sensors@.len() - i,
        {
            names.push(self.sensors[i].friendly_name().to_owned());
            i = i + 1;
        }
        names
    }

    /// The names of the configured outputs, in order.
    pub fn output_names(&self) -> (r: Vec<String>)
        ensures
            r@.len() == self.outputs@.len(),
            forall|i: int| 0 <= i < r@.len() ==> #[trigger] r@[i]@ == self.outputs@[i].spec_name(),
    {
        let mut names: Vec<String> = Vec::new();
        let mut i: usize = 0;
        while i < self.outputs.len()
            invariant
                i <= self.outputs@.len(),
                names@.len() == i,
                forall|j: int| 0 <= j < i ==> #[trigger] names@[j]@ == self.outputs@[j].spec_name(),
            decreases self.outputs@.len() - i,
        {
            names.push(self.outputs[i].name().to_owned());
            i = i + 1;
        }
        names
    }
}

impl Default for HeatingConfig {
    fn default() -> (r: HeatingConfig)
        ensures
            r.is_default(),
    {
        HeatingConfig::default_config()
    }
}

/// What `Duration::from_secs` gives for a number of seconds.
pub uninterp spec fn duration_from_secs(secs: u64) -> Duration;

/// Calls `std::time::Duration::from_secs`. Claimed: the result is the one
/// that `duration_from_secs` names for the number of seconds.
#[verifier::external_body]
fn seconds(secs: u64) -> (r: Duration)
    ensures
        r == duration_from_secs(secs),
{
    Duration::from_secs(secs)
}

/// Each setting that an update gives is taken (runs per day raised from zero
/// to one), and each setting that it leaves out stays.
pub proof fn update_takes_given_settings(config: HeatingConfig, u: HeatingConfigUpdate)
    ensures
        u.comfort_temperature matches Some(v) ==> config.updated(u).comfort_temperature == v,
        u.comfort_temperature is None ==> config.updated(u).comfort_temperature == config.comfort_temperature,
        u.setback_temperature matches Some(v) ==> config.updated(u).setback_temperature == v,
        u.setback_temperature is None ==> config.updated(u).setback_temperature == config.setback_temperature,
        u.design_outdoor_temperature matches Some(v) ==> config.updated(u).design_outdoor_temperature == v,
        u.design_outdoor_temperature is None ==> config.updated(u).design_outdoor_temperature
            == config.design_outdoor_temperature,
        u.heating_curve_slope matches Some(v) ==> config.updated(u).heating_curve_slope == v,
        u.heating_curve_slope is None ==> config.updated(u).heating_curve_slope == config.heating_curve_slope,
        u.heating_curve_base matches Some(v) ==> config.updated(u).heating_curve_base == v,
        u.heating_curve_base is None ==> config.updated(u).heating_curve_base == config.heating_curve_base,
        u.lux_reference matches Some(v) ==> config.updated(u).lux_reference == v,
        u.lux_reference is None ==> config.updated(u).lux_reference == config.lux_reference,
        u.lux_influence matches Some(v) ==> config.updated(u).lux_influence == v,
        u.lux_influence is None ==> config.updated(u).lux_influence == config.lux_influence,
        u.control_runs_per_day matches Some(v) ==> config.updated(u).control_runs_per_day == (if v
            == 0 {
            1
        } else {
            v
        }),
        u.control_runs_per_day is None ==> config.updated(u).control_runs_per_day
            == config.control_runs_per_day,
        u.output_min matches Some(v) ==> config.updated(u).output_min == v,
        u.output_min is None ==> config.updated(u).output_min == config.output_min,
        u.output_max matches Some(v) ==> config.updated(u).output_max == v,
        u.output_max is None ==> config.updated(u).output_max == config.output_max,
        u.sensors matches Some(v) ==> config.updated(u).sensors == v,
        u.sensors is None ==> config.updated(u).sensors == config.sensors,
        u.outputs matches Some(v) ==> config.updated(u).outputs == v,
        u.outputs is None ==> config.updated(u).outputs == config.outputs,
{
}

/// The interval is a day divided by the runs per day, rounded down: the runs
/// fit into the day, and one more second per run would not.
pub proof fn interval_is_a_day_divided_by_the_runs(config: HeatingConfig)
    ensures
        ({
            let runs: int = if config.control_runs_per_day == 0 {
                1
            } else {
                config.control_runs_per_day as int
            };
            &&& config.spec_interval_secs() * runs <= 86400
            &&& 86400 < (config.spec_interval_secs() + 1) * runs
        }),
{
    let runs: int = at_least_one(config.control_runs_per_day) as int;
    let q: int = config.spec_interval_secs() as int;
    assert(q == 86400int / runs);
    assert(q * runs <= 86400 && 86400 < (q + 1) * runs) by (nonlinear_arith)
        requires
            runs >= 1,
            q == 86400int / runs,
    ;
}

/// An update that gives no setting leaves every setting as it is.
pub proof fn update_with_nothing_changes_nothing(config: HeatingConfig)
    ensures
        config.updated(HeatingConfigUpdate::spec_nothing()) == config,
{
}

/// Applying the same update twice has the effect of applying it once.
pub proof fn update_is_idempotent(config: HeatingConfig, update: HeatingConfigUpdate)
    ensures
        config.updated(update).updated(update) == config.updated(update),
{
}

/// Two updates in a row have the effect of one update in which the later
/// one's settings win.
pub proof fn later_update_wins(
    config: HeatingConfig,
    first: HeatingConfigUpdate,
    second: HeatingConfigUpdate,
)
    ensures
        config.updated(first).updated(second) == config.updated(first.followed_by(second)),
{
}

/// Updates keep the number of runs per day positive once it is, and make it
/// positive whenever they set it.
pub proof fn update_keeps_runs_positive(config: HeatingConfig, update: HeatingConfigUpdate)
    ensures
        update.control_runs_per_day is Some ==> config.updated(update).control_runs_per_day >= 1,
        config.control_runs_per_day >= 1 ==> config.updated(update).control_runs_per_day >= 1,
{
}

/// The runs of a day fit into the day, and each interval lasts at least a
/// second while there are no more runs than seconds in a day.
pub proof fn runs_fit_into_a_day(config: HeatingConfig)
    ensures
        config.spec_interval_secs() * at_least_one(config.control_runs_per_day) <= SECONDS_PER_DAY,
        at_least_one(config.control_runs_per_day) <= SECONDS_PER_DAY ==> config.spec_interval_secs()
            >= 1,
{
    let runs: int = at_least_one(config.control_runs_per_day) as int;
    let q: int = SECONDS_PER_DAY as int / runs;
    assert(q * runs <= SECONDS_PER_DAY) by (nonlinear_arith)
        requires
            runs >= 1,
            q == SECONDS_PER_DAY as int / runs,
    ;
    assert(runs <= SECONDS_PER_DAY ==> q >= 1) by (nonlinear_arith)
        requires
            runs >= 1,
            q == SECONDS_PER_DAY as int / runs,
    ;
}

} // verus!
