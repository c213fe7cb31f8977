//! Driver for the AMS AS5048A magnetic rotary encoder.
//!
//! The sensor answers each 16-bit command one transaction late, so every read
//! sends the command word and then a no-op word whose reply is the answer.
pub mod driver;
pub mod protocol;
pub mod transport;

pub use driver::{Error, AS5048A};
pub use transport::{Exchange, Transport};
pub use protocol::{decode_diag_gain, decode_u16, encode, set_parity, to_be_bytes, Register};
