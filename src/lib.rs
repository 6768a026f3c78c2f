//! Acquisition core of a temperature and humidity monitor: turning one
//! DHT11 bus transaction into a reading or a failure, rendering it as text,
//! and deciding what each cycle of the polling loop hands to its sinks.

pub mod decimal;
pub mod dht11_extension;
pub mod polling;
