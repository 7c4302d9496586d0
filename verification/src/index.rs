//! Lookup tables for the single-byte encodings whose indices this crate
//! carries itself.

pub mod windows_1254;
pub mod windows_874;
