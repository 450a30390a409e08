//! Power-aware sensing for a simulated embedded device.
//!
//! A [`battery::Battery`] stores a bounded amount of charge, and a
//! [`gps::NEO7M`] locator pays for every position fix out of the battery it
//! owns. All quantities are whole milliamp-hours.

pub mod battery;
pub mod dev;
pub mod gps;
