//! Driver core for the AS5600 absolute magnetic rotary-position encoder.
//!
//! Everything here is integer arithmetic on plain values: the caller performs
//! the bus reads and takes the timestamps, and hands the results in.
//!
//! - [`angle`]: from a register block to a calibrated angle.
//! - [`window`]: the bounded window of samples and the mean velocity over it.
//! - [`encoder`]: the encoder state, with calibration, direction and the
//!   dialogue of a velocity request.
//! - [`handle`]: opaque handles by which a host owns encoders.

pub mod angle;
pub mod encoder;
pub mod handle;
pub mod window;

pub use angle::Direction;
pub use encoder::VelocityAction;
pub use encoder::VelocityEvent;
pub use encoder::AS5600;
pub use handle::HandleError;
pub use handle::HandleTable;
pub use window::Sample;
pub use window::SampleWindow;
