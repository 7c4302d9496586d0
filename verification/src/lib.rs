//! Incremental converters between Unicode text and a family of legacy
//! byte-oriented character encodings (Shift_JIS/Windows-31J, EUC-JP,
//! ISO-2022-JP, GB18030/GBK, Big5, EUC-KR/Windows-949, UTF-8, UTF-16 and
//! single-byte code pages).
//!
//! The heart of the crate is the streaming protocol: a decoder or encoder
//! accepts input in arbitrary chunks through `raw_feed`, buffers incomplete
//! multi-byte sequences across chunk boundaries, and reports malformed input
//! with a signed offset that may reach back into bytes fed in earlier calls.
//! `raw_finish` drains the pending state at end of stream.  A convenience
//! layer drives a machine to completion over a whole buffer under a trap
//! policy (fail, replace, ignore, caller-supplied handler).

pub mod all;
pub mod codec;
pub mod convert;
pub mod index;
pub mod label;
pub mod raw;
pub mod types;
pub mod util;

pub use all::encodings;
pub use label::encoding_from_whatwg_label;
pub use label::encoding_from_windows_code_page;
pub use raw::RawDecoderImpl;
pub use raw::RawEncoderImpl;
pub use types::CodecError;
pub use types::DecoderTrap;
pub use types::EncoderTrap;
pub use types::Encoding;
