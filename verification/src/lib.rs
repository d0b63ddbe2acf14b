//! Decision logic of a weather-compensated heating controller.
//!
//! Measurements (temperatures, illuminance, humidity, actuator levels) are
//! carried through this library as the bit patterns of IEEE-754
//! single-precision numbers: the library only moves, selects and combines
//! them; arithmetic on their values happens in the service around it.

pub mod text;
pub mod snapshot;
pub mod payload;
pub mod sensors;
pub mod broker;
pub mod outputs;
pub mod config;
pub mod controller;
