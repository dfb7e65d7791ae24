//! Decoding of Bluetooth Extended Inquiry Response (EIR) / Advertising Data,
//! and the device address value type that accompanies it.
//!
//! - `eir` holds the decoder, `parse_eir`, and gives access to the types it
//!   works with.
//! - `format` says what a buffer decodes to; `theorems` holds what follows
//!   from that for every buffer.
//! - `record` and `flags` hold the records, the errors and the capability
//!   flags.
//! - `cursor` and `text` hold what is taken on trust from the `bytes` crate and
//!   from the standard library.
//! - `address` holds the device address.

pub mod address;
pub mod cursor;
pub mod eir;
pub mod flags;
pub mod format;
pub mod record;
pub mod text;
pub mod theorems;
