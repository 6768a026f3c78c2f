//! The outcome of one DHT11 bus transaction, normalized into a reading or a
//! failure message.

use vstd::prelude::*;

use crate::decimal::{tenths_text, tenths_to_string};

verus! {

/// The fixed-point measurement that one bus transaction yields.
#[derive(Clone, Copy, Debug, PartialEq, Eq, Structural)]
pub struct RawMeasurement {
    /// Temperature in tenths of a degree Celsius.
    pub temperature: i16,
    /// Relative humidity in tenths of a percent.
    pub humidity: u16,
}

/// Represents the measurement data from a DHT11 sensor.
///
/// Both quantities are kept exactly, in tenths of their unit: the temperature
/// in degrees Celsius is `temperature_tenths / 10`, the relative humidity in
/// percent is `humidity_tenths / 10`. No range is imposed on either.
#[derive(Clone, Copy, Debug, PartialEq, Eq, Structural)]
pub struct SensorData {
    /// The temperature, in tenths of a degree Celsius.
    pub temperature_tenths: i16,
    /// The relative humidity, in tenths of a percent.
    pub humidity_tenths: u16,
}

/// The reading that a raw measurement stands for: each quantity is the raw
/// value divided by ten, with nothing else applied.
pub open spec fn reading_of(m: RawMeasurement) -> SensorData {
    SensorData { temperature_tenths: m.temperature, humidity_tenths: m.humidity }
}

/// What normalizing a transaction outcome gives: the reading of a measurement,
/// or the fault's message unchanged.
pub open spec fn normalized(outcome: Result<RawMeasurement, Seq<char>>) -> Result<
    SensorData,
    Seq<char>,
> {
    match outcome {
        Ok(m) => Ok(reading_of(m)),
        Err(f) => Err(f),
    }
}

/// The outcome of a transaction, with the fault's message seen as characters.
pub open spec fn outcome_view<T>(outcome: Result<T, String>) -> Result<T, Seq<char>> {
    match outcome {
        Ok(m) => Ok(m),
        Err(f) => Err(f@),
    }
}

impl SensorData {
    /// The temperature in degrees Celsius as decimal text ("23.1").
    pub fn temperature_text(&self) -> (r: String)
        ensures
            r@ == tenths_text(self.temperature_tenths as int),
    {
        tenths_to_string(self.temperature_tenths as i32)
    }

    /// The relative humidity in percent as decimal text ("65.5").
    pub fn humidity_text(&self) -> (r: String)
        ensures
            r@ == tenths_text(self.humidity_tenths as int),
    {
        tenths_to_string(self.humidity_tenths as i32)
    }
}

/// Converts the outcome of one bus transaction: a measurement becomes a
/// reading in tenths of its units, and a fault's message is passed on as it is.
pub fn normalize(outcome: Result<RawMeasurement, String>) -> (r: Result<SensorData, String>)
    ensures
        outcome_view(r) == normalized(outcome_view(outcome)),
{
    match outcome {
        Ok(m) => Ok(SensorData { temperature_tenths: m.temperature, humidity_tenths: m.humidity }),
        Err(f) => Err(f),
    }
}

} // verus!
