//! Codec for the SLCAN line protocol spoken by serial and USB CAN adapters.
//!
//! The crate turns CAN frames and adapter settings into the ASCII command
//! lines that an adapter accepts, and turns the lines an adapter sends back
//! into frames or acknowledgements. It performs no I/O: a driver writes the
//! command bytes to its transport, performs one blocking read, and hands the
//! outcome of that exchange to the codec.

pub mod ascii;
pub mod bitrate;
pub mod buffer;
pub mod codec;
pub mod error;
pub mod frame;
pub mod hex;
pub mod wire;

pub use bitrate::Bitrate;
pub use codec::{Slcan, Transfer};
pub use error::SlcanError;
pub use frame::CanMsg;
