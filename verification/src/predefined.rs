//! Predefined profiles.

pub mod totp;

pub use totp::TotpCodeProfile;
