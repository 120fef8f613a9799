//! Verified core of a real-time audio I/O subsystem for an embedded
//! microcontroller: the block pipeline sequencing, the native sample framing of
//! each transport, the register programs of the codec chips and the monochrome
//! frame buffer, all on plain integers and bytes.
//!
//! Nothing in this crate touches hardware. Bus transfers, task creation and
//! floating-point scaling belong to the firmware around it, which hands the
//! outcome of each hardware operation to the functions here.

pub mod allocators;
pub mod audio;
pub mod blinky;
pub mod codec;
pub mod display;
pub mod driver;
pub mod errors;
pub mod esp_idf;
pub mod i2c;
pub mod i2s;
pub mod ledc;
pub mod logger;
pub mod lwip;
pub mod nvs;
pub mod wavetable;
pub mod wifi;
