//! Decoding of the advertisements that temperature and humidity sensors
//! broadcast, and the rules of the discovery loop that listens for them.
//!
//! Physical quantities are fixed-point integers: temperature in hundredths of
//! a degree Celsius, relative humidity in hundredths of a percent, supply
//! voltage in millivolts, battery level in percent.

pub mod bytes;
pub mod decoder;
pub mod router;
pub mod supervisor;
pub mod sensor;
