//! The per-encoding state machines: byte classification, pending-sequence
//! handling and the exact consumption rules of each encoding family.

pub mod japanese;
pub mod korean;
pub mod lookup;
pub mod simpchinese;
pub mod singlebyte;
pub mod tradchinese;
pub mod utf_16;
pub mod utf_8;
