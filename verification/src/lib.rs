//! Embedded environmental-monitoring core: validated sensor conversions,
//! a fixed-capacity ring of readings, threshold alerting with a rolling
//! history, and the controller state machine that ties them together.
//!
//! All physical quantities are carried as scaled integers (hundredths of a
//! unit for temperature, humidity and pressure, thousandths of a ppm for air
//! quality), which keeps the arithmetic exact and verifiable on targets
//! without floating-point hardware. Peripheral access (ADC, serial, LEDs,
//! clock) is left to the driver around the library, which hands in raw
//! sample codes and timestamps and carries readings and alerts out.

pub mod alert;
pub mod bench;
pub mod math;
pub mod sensor;
pub mod storage;
pub mod system;
