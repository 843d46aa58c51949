//! Some additional exports that are not needed for plain usage.

pub use crate::control_flags::ControlFlagsBuilder;
