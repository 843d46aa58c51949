//! Core logic of a fixed-length, one-grapheme-per-cell code entry control
//! (for example a six digit TOTP code): the alphabet profile contract, the
//! code buffer, the focus step function, one-shot control flags, and the
//! per-cell input decisions, each with a verified contract.

pub mod container_id;
pub mod control_flags;
pub mod controller;
pub mod digit_code_status;
pub mod extra;
pub mod focus_offset;
pub mod predefined;
pub mod profile;
pub mod text;

pub use control_flags::ControlFlags;
pub use digit_code_status::DigitCode;
pub use predefined::TotpCodeProfile;
pub use profile::DigitCodeProfile;
