//! Codec for the control frames of the MAD R mouse: checksums, per-setting
//! encoders and decoders, the paired-stage read-modify-write and the ordering
//! of multi-frame operations.

pub mod battery;
pub mod checksum;
pub mod controller;
pub mod debounce;
pub mod dpi;
pub mod error;
pub mod frame;
pub mod ids;
pub mod performance;
pub mod sensor;
pub mod sleep;
pub mod text;

pub use error::MadRError;
pub use battery::Battery;
pub use debounce::Debounce;
pub use performance::{Performance, PollingRate};
pub use sensor::Sensor;
