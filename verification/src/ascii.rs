//! The ASCII characters of the line protocol.

use vstd::prelude::*;

verus! {

/// Carriage return, the terminator of every line.
pub const CR: u8 = 0x0D;

/// The digit `0`.
pub const DIGIT_0: u8 = 0x30;

/// The digit `1`.
pub const DIGIT_1: u8 = 0x31;

/// The digit `9`.
pub const DIGIT_9: u8 = 0x39;

/// The letter `A`, the hex digit for ten.
pub const UPPER_A: u8 = 0x41;

/// The letter `F`, the hex digit for fifteen.
pub const UPPER_F: u8 = 0x46;

/// `t`: a standard data frame.
pub const STANDARD_DATA: u8 = 0x74;

/// `T`: an extended data frame.
pub const EXTENDED_DATA: u8 = 0x54;

/// `r`: a standard remote frame.
pub const STANDARD_REMOTE: u8 = 0x72;

/// `R`: an extended remote frame.
pub const EXTENDED_REMOTE: u8 = 0x52;

/// `S`: set the bit rate.
pub const SET_BITRATE: u8 = 0x53;

/// `O`: open the channel.
pub const OPEN: u8 = 0x4F;

/// `C`: close the channel.
pub const CLOSE: u8 = 0x43;

/// `Z`: switch time stamps on or off.
pub const SET_TIMESTAMP: u8 = 0x5A;

/// `M`: set the acceptance mask.
pub const SET_ACCEPTANCE_MASK: u8 = 0x4D;

/// `m`: set the acceptance id.
pub const SET_ACCEPTANCE_ID: u8 = 0x6D;

} // verus!
