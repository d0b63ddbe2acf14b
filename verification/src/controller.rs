//! The controller's decisions around reading sensors and driving outputs.

use vstd::prelude::*;
use crate::outputs::OutputCommand;
use crate::sensors::SensorError;
use crate::snapshot::{merged_all, SensorSnapshot};
use crate::text::{join2, join3};

verus! {

/// Why the controller could not be set up.
#[derive(Debug)]
pub enum ControllerError {
    /// A sensor could not be set up, or none is configured.
    Sensor(String),
    /// An output could not be set up.
    Output(String),
}

impl ControllerError {
    /// The text that describes the error.
    pub open spec fn spec_message(&self) -> Seq<char> {
        match self {
            ControllerError::Sensor(m) => "sensor error: "@ + m@,
            ControllerError::Output(m) => "output error: "@ + m@,
        }
    }

    /// The text that describes the error.
    pub fn message(&self) -> (r: String)
        ensures
            r@ == self.spec_message(),
    {
        match self {
            ControllerError::Sensor(m) => join2("sensor error: ", m.as_str()),
            ControllerError::Output(m) => join2("output error: ", m.as_str()),
        }
    }

    /// The answer given when the controller could not take over changed
    /// settings for this error.
    pub fn reload_failed_message(&self) -> (r: String)
        ensures
            r@ == "controller reload failed: "@ + self.spec_message(),
    {
        let m = self.message();
        join2("controller reload failed: ", m.as_str())
    }

    /// The error for a sensor whose settings, described by `settings`, could
    /// not be turned into a sensor for the reason `reason`.
    pub fn sensor_setup_failed(settings: &str, reason: &str) -> (r: ControllerError)
        ensures
            r matches ControllerError::Sensor(m) && m@ == settings@ + ": "@ + reason@,
    {
        ControllerError::Sensor(join3(settings, ": ", reason))
    }

    /// The error for an output whose settings, described by `settings`, could
    /// not be turned into an output for the reason `reason`.
    pub fn output_setup_failed(settings: &str, reason: &str) -> (r: ControllerError)
        ensures
            r matches ControllerError::Output(m) && m@ == settings@ + ": "@ + reason@,
    {
        ControllerError::Output(join3(settings, ": ", reason))
    }
}

/// Accepts a set of sensors only when it is not empty.
pub fn require_sensors(count: usize) -> (r: Result<(), ControllerError>)
    ensures
        count > 0 ==> r is Ok,
        count == 0 ==> (r matches Err(ControllerError::Sensor(m)) && m@ == "no sensors configured"@),
{
    if count == 0 {
        Err(ControllerError::Sensor("no sensors configured".to_owned()))
    } else {
        Ok(())
    }
}

/// The texts of a list of messages.
pub open spec fn texts(messages: Seq<String>) -> Seq<Seq<char>> {
    messages.map_values(|m: String| m@)
}

/// The message reported when no sensor gave a temperature.
pub open spec fn no_data_message() -> Seq<char> {
    "No relevant sensor data available"@
}

/// One evaluation in progress: what the sensors have told so far, and the
/// problems met so far, in the order met.
pub struct EvaluationRound {
    pub snapshot: SensorSnapshot,
    pub errors: Vec<String>,
}

impl EvaluationRound {
    /// An evaluation that has heard from no sensor yet.
    pub fn new() -> (r: EvaluationRound)
        ensures
            r.snapshot == SensorSnapshot::blank(),
            r.errors@.len() == 0,
    {
        EvaluationRound { snapshot: SensorSnapshot::empty(), errors: Vec::new() }
    }

    /// Takes in what the sensor `sensor_name` answered: a reading fills the
    /// gaps of the snapshot (earlier sensors take precedence), an error is
    /// noted as the sensor's name and the error's text.
    pub fn record_reading(&mut self, sensor_name: &str, reading: Result<SensorSnapshot, SensorError>)
        ensures
            match reading {
                Ok(s) => {
                    &&& final(self).snapshot == old(self).snapshot.merged(s)
                    &&& final(self).errors@ == old(self).errors@
                },
                Err(e) => {
                    &&& final(self).snapshot == old(self).snapshot
                    &&& texts(final(self).errors@) == texts(old(self).errors@).push(
                        sensor_name@ + ": "@ + e.spec_message(),
                    )
                },
            },
    {
        match reading {
            Ok(data) => {
                self.snapshot.merge(data);
            },
            Err(err) => {
                let text = err.message();
                let line = join3(sensor_name, ": ", text.as_str());
                self.errors.push(line);
                proof {
                    assert(texts(self.errors@) =~= texts(old(self).errors@).push(
                        sensor_name@ + ": "@ + err.spec_message(),
                    ));
                }
            },
        }
    }

    /// Ends the reading phase: notes that no relevant data is available when
    /// no sensor gave an outside, indoor or forecast temperature.
    pub fn finish_readings(&mut self)
        ensures
            final(self).snapshot == old(self).snapshot,
            old(self).snapshot.spec_has_temperature() ==> final(self).errors@ == old(self).errors@,
            !old(self).snapshot.spec_has_temperature() ==> texts(final(self).errors@) == texts(
                old(self).errors@,
            ).push(no_data_message()),
    {
        if !self.snapshot.has_temperature() {
            self.errors.push("No relevant sensor data available".to_owned());
            proof {
                assert(texts(self.errors@) =~= texts(old(self).errors@).push(no_data_message()));
            }
        }
    }

    /// Takes in how the output `output_name` took the command: a failure is
    /// noted as the output's name and the failure's text.
    pub fn record_delivery(&mut self, output_name: &str, outcome: Result<(), String>)
        ensures
            final(self).snapshot == old(self).snapshot,
            outcome is Ok ==> final(self).errors@ == old(self).errors@,
            outcome matches Err(m) ==> texts(final(self).errors@) == texts(old(self).errors@).push(
                output_name@ + ": "@ + m@,
            ),
    {
        match outcome {
            Ok(()) => {},
            Err(reason) => {
                let line = join3(output_name, ": ", reason.as_str());
                self.errors.push(line);
                proof {
                    assert(texts(self.errors@) =~= texts(old(self).errors@).push(
                        output_name@ + ": "@ + reason@,
                    ));
                }
            },
        }
    }
}

/// The published problems after an evaluation that met `all` reports them,
/// `published` being those published before.
pub open spec fn errors_after(published: Seq<String>, all: Seq<String>) -> Seq<String> {
    if all.len() > 0 {
        all
    } else {
        published
    }
}

/// Once an evaluation has published the problems met while reading the
/// sensors and then reported the full list, the status lists exactly the
/// full list, whether or not it is empty.
pub proof fn status_lists_every_problem(reading_errors: Seq<String>, all_errors: Seq<String>)
    requires
        reading_errors.is_prefix_of(all_errors),
    ensures
        errors_after(reading_errors, all_errors) == all_errors,
{
    if all_errors.len() == 0 {
        assert(reading_errors.len() == 0);
        assert(reading_errors =~= all_errors);
    }
}

/// The snapshot of a round after `record_reading` took in `readings`, in
/// order, starting from a new round.
pub open spec fn snapshot_after(readings: Seq<Result<SensorSnapshot, SensorError>>) -> SensorSnapshot
    decreases readings.len(),
{
    if readings.len() == 0 {
        SensorSnapshot::blank()
    } else {
        match readings.last() {
            Ok(s) => snapshot_after(readings.drop_last()).merged(s),
            Err(_) => snapshot_after(readings.drop_last()),
        }
    }
}

/// The readings that succeeded, in order.
pub open spec fn successes(readings: Seq<Result<SensorSnapshot, SensorError>>) -> Seq<SensorSnapshot>
    decreases readings.len(),
{
    if readings.len() == 0 {
        Seq::empty()
    } else {
        match readings.last() {
            Ok(s) => successes(readings.drop_last()).push(s),
            Err(_) => successes(readings.drop_last()),
        }
    }
}

/// A round's snapshot is the merge, in order, of the readings that
/// succeeded; failed sensors leave no trace in it.
pub proof fn round_snapshot_merges_successes(readings: Seq<Result<SensorSnapshot, SensorError>>)
    ensures
        snapshot_after(readings) == merged_all(successes(readings)),
    decreases readings.len(),
{
    if readings.len() > 0 {
        let prefix = readings.drop_last();
        round_snapshot_merges_successes(prefix);
        match readings.last() {
            Ok(s) => {
                assert(successes(readings).drop_last() =~= successes(prefix));
            },
            Err(_) => {},
        }
    }
}

/// Whether a sensor answered with an outside, indoor or forecast temperature.
pub open spec fn answered_with_temperature(reading: Result<SensorSnapshot, SensorError>) -> bool {
    match reading {
        Ok(x) => x.outside_temperature is Some || x.indoor_temperature is Some
            || x.forecast_temperature is Some,
        Err(_) => false,
    }
}

/// A round in which some sensor answered with an outside, indoor or forecast
/// temperature has relevant data, so `finish_readings` notes nothing.
pub proof fn a_read_temperature_is_relevant(readings: Seq<Result<SensorSnapshot, SensorError>>)
    ensures
        (exists|i: int|
            0 <= i < readings.len() && answered_with_temperature(#[trigger] readings[i])) ==> snapshot_after(readings).spec_has_temperature(),
    decreases readings.len(),
{
    if readings.len() > 0 {
        let prefix = readings.drop_last();
        a_read_temperature_is_relevant(prefix);
        if exists|i: int|
            0 <= i < readings.len() && answered_with_temperature(#[trigger] readings[i]) {
            let i = choose|i: int|
                0 <= i < readings.len() && answered_with_temperature(#[trigger] readings[i]);
            if i < readings.len() - 1 {
                assert(prefix[i] == readings[i]);
            }
        }
    }
}

/// What the controller reports about its last evaluation.
#[derive(Clone, Debug)]
pub struct ControllerStatus {
    pub snapshot: Option<SensorSnapshot>,
    pub command: Option<OutputCommand>,
    pub errors: Vec<String>,
}

impl ControllerStatus {
    /// The status before any evaluation.
    pub fn new() -> (r: ControllerStatus)
        ensures
            r.snapshot is None,
            r.command is None,
            r.errors@.len() == 0,
    {
        ControllerStatus { snapshot: None, command: None, errors: Vec::new() }
    }

    /// Publishes what an evaluation computed before driving the outputs.
    pub fn publish(&mut self, snapshot: SensorSnapshot, command: OutputCommand, errors: Vec<String>)
        ensures
            final(self).snapshot == Some(snapshot),
            final(self).command == Some(command),
            final(self).errors@ == errors@,
    {
        self.snapshot = Some(snapshot);
        self.command = Some(command);
        self.errors = errors;
    }

    /// Replaces the published problems with the full list met by the
    /// evaluation, unless that list is empty.
    pub fn publish_errors(&mut self, errors: Vec<String>)
        ensures
            final(self).snapshot == old(self).snapshot,
            final(self).command == old(self).command,
            final(self).errors@ == errors_after(old(self).errors@, errors@),
    {
        if errors.len() > 0 {
            self.errors = errors;
        }
    }
}

impl Default for ControllerStatus {
    fn default() -> (r: ControllerStatus)
        ensures
            r.snapshot is None,
            r.command is None,
            r.errors@.len() == 0,
    {
        ControllerStatus::new()
    }
}

} // verus!
