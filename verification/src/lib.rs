//! Configuration-encoding layer of an inertial-measurement-unit sensor
//! driver: translates semantic settings (range, output data rate, filter
//! bandwidth, power mode, bus address) into the bit patterns the hardware
//! control registers expect, and decodes raw register bytes back into those
//! settings.

pub mod config;
pub mod error;
