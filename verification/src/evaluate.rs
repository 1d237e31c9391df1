//! The threshold evaluator: a pure map from a sensor reading and the
//! current preferences to actuator intents.
//!
//! The reading arrives as plain values: temperature already converted to
//! whole degrees Fahrenheit, humidity in whole percent, pressure in whole
//! hectopascal. The embedding program owns the conversion from the raw
//! sensor output.

use vstd::prelude::*;

use crate::prefs::Preferences;
use crate::prefs::spec_is_watering_time;

verus! {

/// One immutable snapshot of the environmental sensor.
pub struct SensorReading {
    /// Temperature in whole degrees Fahrenheit.
    pub temperature_f: u8,
    /// Relative humidity in whole percent.
    pub humidity_percent: u8,
    /// Barometric pressure in whole hectopascal (shown only, never acted on).
    pub pressure_hpa: u16,
}

/// What the actuators are asked to do after one evaluation.
pub struct ActuatorIntent {
    /// Open the roof vent.
    pub vent_open: bool,
    /// Run the sprinkler relay.
    pub sprinkler_on: bool,
}

/// The vent opens exactly when the temperature leaves the configured band.
pub open spec fn spec_vent_open(reading: SensorReading, p: Preferences) -> bool {
    reading.temperature_f < p.temperature.0 || reading.temperature_f > p.temperature.1
}

/// The humidity reason for running the sprinkler: the reading left the
/// configured band.
pub open spec fn spec_humidity_out_of_band(reading: SensorReading, p: Preferences) -> bool {
    reading.humidity_percent < p.humidity.0 || reading.humidity_percent > p.humidity.1
}

/// The sprinkler runs when either reason holds: the humidity left its
/// band, or the watering schedule is active.
pub open spec fn spec_sprinkler_on(reading: SensorReading, p: Preferences) -> bool {
    spec_humidity_out_of_band(reading, p) || spec_is_watering_time(p)
}

/// Maps one sensor reading and the preferences to actuator intents.
///
/// The sprinkler has two independent reasons to run, the humidity band
/// and the watering schedule; either one activates it. Combining them
/// with an or is the resolution chosen here for the two checks that run
/// back to back.
pub fn evaluate(reading: &SensorReading, p: &Preferences) -> (intent: ActuatorIntent)
    ensures
        intent.vent_open == spec_vent_open(*reading, *p),
        intent.sprinkler_on == spec_sprinkler_on(*reading, *p),
{
    let vent_open = reading.temperature_f < p.temperature.0
        || reading.temperature_f > p.temperature.1;
    let mut sprinkler_on = reading.humidity_percent < p.humidity.0
        || reading.humidity_percent > p.humidity.1;
    if p.is_watering_time() {
        sprinkler_on = true;
    }
    ActuatorIntent { vent_open, sprinkler_on }
}

} // verus!
