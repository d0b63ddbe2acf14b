//! Output configuration, the command handed to outputs, and the parts of
//! output handling that involve no device.

use vstd::prelude::*;
use crate::text::{join2, trim_end_char, trim_end_matching};

verus! {

/// What the controller asks of the heating; temperatures and the power level
/// are bit patterns of single-precision numbers.
#[derive(Clone, Debug)]
pub struct OutputCommand {
    pub flow_temperature: u32,
    pub power_level: u32,
    pub comfort_setpoint: u32,
    pub reason: String,
    /// Seconds since the Unix epoch at which the command was computed.
    pub timestamp_secs: i64,
    /// Nanoseconds past `timestamp_secs`.
    pub timestamp_nanos: u32,
}

/// How an output is set up.
#[derive(Clone, Debug)]
pub enum OutputSettings {
    /// A Shelly relay reached over HTTP at `base_url`.
    ShellyRelay { name: String, base_url: String },
    /// Publishes each command on an MQTT `topic` of `broker`.
    Mqtt { name: String, broker: String, topic: String },
    /// Writes each command to the log.
    Log { name: String },
}

impl OutputSettings {
    /// The output's name.
    pub open spec fn spec_name(&self) -> Seq<char> {
        match self {
            OutputSettings::ShellyRelay { name, .. } => name@,
            OutputSettings::Mqtt { name, .. } => name@,
            OutputSettings::Log { name } => name@,
        }
    }

    /// The output's name.
    pub fn name(&self) -> (r: &str)
        ensures
            r@ == self.spec_name(),
    {
        match self {
            OutputSettings::ShellyRelay { name, .. } => name.as_str(),
            OutputSettings::Mqtt { name, .. } => name.as_str(),
            OutputSettings::Log { name } => name.as_str(),
        }
    }
}

/// An output that writes each command to the log.
pub struct LogOutput {
    name: String,
}

impl LogOutput {
    /// The output's name.
    pub closed spec fn spec_name(&self) -> Seq<char> {
        self.name@
    }

    /// A log output called `name`.
    pub fn new(name: String) -> (r: LogOutput)
        ensures
            r.spec_name() == name@,
    {
        LogOutput { name }
    }

    /// The output's name.
    pub fn name(&self) -> (r: &str)
        ensures
            r@ == self.spec_name(),
    {
        self.name.as_str()
    }
}

/// The address of a Shelly relay's first switch below `base_url`.
pub open spec fn spec_relay_url(base_url: Seq<char>) -> Seq<char> {
    trim_end_char(base_url, '/') + "/relay/0"@
}

/// The address of a Shelly relay's first switch: `base_url` without its
/// trailing slashes, followed by `/relay/0`.
pub fn relay_url(base_url: &str) -> (r: String)
    ensures
        r@ == spec_relay_url(base_url@),
{
    let base = trim_end_matching(base_url, '/');
    join2(base.as_str(), "/relay/0")
}

} // verus!
