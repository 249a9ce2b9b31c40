//! CAN frames.

use vstd::prelude::*;

verus! {

/// Largest number of payload bytes in one frame.
pub const MAX_DATA_LEN: usize = 8;

/// Largest id of a standard frame: eleven bits.
pub const MAX_STANDARD_ID: u32 = 0x7FF;

/// Largest id of an extended frame: twenty-nine bits.
pub const MAX_EXTENDED_ID: u32 = 0x1FFF_FFFF;

/// A CAN frame.
///
/// The codec takes a frame as it is given. Whether it can go on a bus is
/// for the caller to see to: [`CanMsg::is_valid`] tells.
#[derive(Debug, PartialEq, Eq)]
pub struct CanMsg {
    /// Extended frame format: the id has 29 bits instead of 11.
    pub is_eff: bool,
    /// Remote transmission request: the frame asks for data and carries none.
    pub is_rtr: bool,
    /// The arbitration id.
    pub id: u32,
    /// The payload. In a remote frame only its length counts.
    pub data: Vec<u8>,
}

/// The mathematical value of a [`CanMsg`].
pub struct Frame {
    /// Extended frame format.
    pub is_eff: bool,
    /// Remote transmission request.
    pub is_rtr: bool,
    /// The arbitration id.
    pub id: u32,
    /// The payload.
    pub data: Seq<u8>,
}

impl View for CanMsg {
    type V = Frame;

    open spec fn view(&self) -> Frame {
        Frame { is_eff: self.is_eff, is_rtr: self.is_rtr, id: self.id, data: self.data@ }
    }
}

impl Frame {
    /// Whether the frame can go on a CAN bus: at most eight payload bytes and
    /// an id that fits the frame format.
    pub open spec fn is_valid(self) -> bool {
        &&& self.data.len() <= MAX_DATA_LEN
        &&& self.id <= if self.is_eff {
            MAX_EXTENDED_ID
        } else {
            MAX_STANDARD_ID
        }
    }

    /// The frame as an adapter reports it: a remote frame comes back without
    /// payload.
    pub open spec fn as_received(self) -> Frame {
        Frame {
            is_eff: self.is_eff,
            is_rtr: self.is_rtr,
            id: self.id,
            data: if self.is_rtr {
                Seq::empty()
            } else {
                self.data
            },
        }
    }
}

impl Clone for CanMsg {
    /// A copy with the same format, id and payload.
    fn clone(&self) -> (copy: CanMsg)
        ensures
            copy@ == self@,
    {
        let data = self.data.clone();
        CanMsg { is_eff: self.is_eff, is_rtr: self.is_rtr, id: self.id, data }
    }
}

impl CanMsg {
    /// Tests whether the frame can go on a CAN bus.
    pub fn is_valid(&self) -> (valid: bool)
        ensures
            valid == self@.is_valid(),
    {
        let max_id = if self.is_eff {
            MAX_EXTENDED_ID
        } else {
            MAX_STANDARD_ID
        };
        self.data.len() <= MAX_DATA_LEN && self.id <= max_id
    }
}

} // verus!
