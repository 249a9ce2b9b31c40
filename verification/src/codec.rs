//! The protocol codec.
//!
//! Every operation is one exchange with the adapter: at most one line is
//! written, then one blocking read is made. The codec builds the line, the
//! driver performs the exchange on its transport and reports it as a
//! [`Transfer`], and the codec turns that into the operation's result.
//! Nothing is retried, and nothing of one exchange is kept for the next.

use vstd::prelude::*;
use vstd::slice::{slice_subrange, slice_to_vec};

use crate::ascii::{
    CLOSE, CR, DIGIT_0, DIGIT_1, EXTENDED_DATA, EXTENDED_REMOTE, OPEN, SET_ACCEPTANCE_ID,
    SET_ACCEPTANCE_MASK, SET_BITRATE, SET_TIMESTAMP, STANDARD_DATA, STANDARD_REMOTE,
};
use crate::bitrate::Bitrate;
use crate::buffer::{clipped, ReceiveBuffer};
use crate::error::SlcanError;
use crate::frame::{CanMsg, Frame, MAX_DATA_LEN};
use crate::hex::{be_bytes, hex_text, hex_to_u32, num_to_string, string_to_num, u32_to_bytes};
use crate::wire::{command_line, frame_text, is_terminated, parse_line};

verus! {

/// What the transport did in one exchange.
#[derive(Debug, PartialEq, Eq)]
pub enum Transfer {
    /// Writing the line, or the read after it, failed.
    Failed,
    /// The bytes that the one blocking read delivered.
    Received(Vec<u8>),
}

/// The codec: it owns the receive buffer, which holds what the last exchange
/// delivered and nothing of any exchange before it.
pub struct Slcan {
    buf: ReceiveBuffer,
}

impl Slcan {
    /// The bytes that the last exchange left in the receive buffer.
    pub closed spec fn received(&self) -> Seq<u8> {
        self.buf@
    }

    /// A codec with an empty receive buffer.
    pub fn new() -> (slcan: Slcan)
        ensures
            slcan.received() == Seq::<u8>::empty(),
    {
        Slcan { buf: ReceiveBuffer::new() }
    }

    /// A copy of the bytes that the last exchange left in the receive buffer.
    pub fn last_received(&self) -> (bytes: Vec<u8>)
        ensures
            bytes@ == self.received(),
    {
        slice_to_vec(self.buf.as_slice())
    }

    /// The line that sets the bit rate: `S`, the digit of `bitrate`, and a
    /// carriage return. The receive buffer is emptied.
    pub fn setup_bitrate(&mut self, bitrate: Bitrate) -> (line: Vec<u8>)
        ensures
            line@ == command_line(seq![SET_BITRATE, bitrate.digit()]),
            final(self).received() == Seq::<u8>::empty(),
    {
        let mut text: Vec<u8> = Vec::new();
        text.push(SET_BITRATE);
        text.push(bitrate.code());
        self.begin(text)
    }

    /// The line that opens the channel: `O` and a carriage return. The
    /// receive buffer is emptied.
    pub fn open(&mut self) -> (line: Vec<u8>)
        ensures
            line@ == command_line(seq![OPEN]),
            final(self).received() == Seq::<u8>::empty(),
    {
        let mut text: Vec<u8> = Vec::new();
        text.push(OPEN);
        self.begin(text)
    }

    /// The line that closes the channel: `C` and a carriage return. The
    /// receive buffer is emptied.
    pub fn close(&mut self) -> (line: Vec<u8>)
        ensures
            line@ == command_line(seq![CLOSE]),
            final(self).received() == Seq::<u8>::empty(),
    {
        let mut text: Vec<u8> = Vec::new();
        text.push(CLOSE);
        self.begin(text)
    }

    /// The line that switches time stamps: `Z1` to switch them on, `Z0` to
    /// switch them off, and a carriage return. The receive buffer is
    /// emptied.
    pub fn set_timestamp(&mut self, on: bool) -> (line: Vec<u8>)
        ensures
            line@ == command_line(
                seq![SET_TIMESTAMP, if on {
                    DIGIT_1
                } else {
                    DIGIT_0
                }],
            ),
            final(self).received() == Seq::<u8>::empty(),
    {
        let switch = if on {
            DIGIT_1
        } else {
            DIGIT_0
        };
        let mut text: Vec<u8> = Vec::new();
        text.push(SET_TIMESTAMP);
        text.push(switch);
        self.begin(text)
    }

    /// The line that sets the acceptance mask: `M`, the eight hex digits of
    /// `mask`, most significant first, and a carriage return. The receive
    /// buffer is emptied.
    pub fn set_acceptance_mask(&mut self, mask: u32) -> (line: Vec<u8>)
        ensures
            line@ == command_line(seq![SET_ACCEPTANCE_MASK] + hex_text(be_bytes(mask))),
            final(self).received() == Seq::<u8>::empty(),
    {
        let bytes = u32_to_bytes(mask);
        let mut digits = num_to_string(bytes.as_slice());
        let mut text: Vec<u8> = Vec::new();
        text.push(SET_ACCEPTANCE_MASK);
        text.append(&mut digits);
        self.begin(text)
    }

    /// The line that sets the acceptance id: `m`, the eight hex digits of
    /// `id`, most significant first, and a carriage return. The receive
    /// buffer is emptied.
    pub fn set_acceptance_id(&mut self, id: u32) -> (line: Vec<u8>)
        ensures
            line@ == command_line(seq![SET_ACCEPTANCE_ID] + hex_text(be_bytes(id))),
            final(self).received() == Seq::<u8>::empty(),
    {
        let bytes = u32_to_bytes(id);
        let mut digits = num_to_string(bytes.as_slice());
        let mut text: Vec<u8> = Vec::new();
        text.push(SET_ACCEPTANCE_ID);
        text.append(&mut digits);
        self.begin(text)
    }

    /// Ends an exchange in which a frame was awaited.
    ///
    /// A failed transfer gives `Io` and leaves the receive buffer empty.
    /// Otherwise the receive buffer takes the first 32 of the bytes that
    /// were read. If they form a frame line, the result is its frame; if
    /// not, it is `InvalidData`: so for fewer than six bytes, for a last
    /// byte that is no carriage return, for an unknown kind, for a line too
    /// short for its id, and for an id or a payload that is not hex text.
    pub fn read(&mut self, reply: &Transfer) -> (result: Result<CanMsg, SlcanError>)
        ensures
            match *reply {
                Transfer::Failed => {
                    &&& result == Err::<CanMsg, SlcanError>(SlcanError::Io)
                    &&& final(self).received() == Seq::<u8>::empty()
                },
                Transfer::Received(bytes) => {
                    &&& final(self).received() == clipped(bytes@)
                    &&& match result {
                        Ok(msg) => parse_line(clipped(bytes@)) == Ok::<Frame, SlcanError>(msg@),
                        Err(e) => parse_line(clipped(bytes@)) == Err::<Frame, SlcanError>(e),
                    }
                    &&& clipped(bytes@).len() < 6 ==> result == Err::<CanMsg, SlcanError>(
                        SlcanError::InvalidData,
                    )
                    &&& !is_terminated(clipped(bytes@)) ==> result == Err::<CanMsg, SlcanError>(
                        SlcanError::InvalidData,
                    )
                },
            },
    {
        let n = match reply {
            Transfer::Failed => {
                self.buf.clear();
                return Err(SlcanError::Io);
            },
            Transfer::Received(bytes) => self.buf.fill(bytes.as_slice()),
        };
        let line = self.buf.as_slice();
        if n < 6 || line[n - 1] != CR {
            return Err(SlcanError::InvalidData);
        }
        let kind = line[0];
        let (is_eff, is_rtr) = if kind == STANDARD_DATA {
            (false, false)
        } else if kind == EXTENDED_DATA {
            (true, false)
        } else if kind == STANDARD_REMOTE {
            (false, true)
        } else if kind == EXTENDED_REMOTE {
            (true, true)
        } else {
            return Err(SlcanError::InvalidData);
        };
        let id_end: usize = if is_eff {
            9
        } else {
            4
        };
        if n < id_end + 2 {
            return Err(SlcanError::InvalidData);
        }
        let id = match hex_to_u32(slice_subrange(line, 1, id_end)) {
            Ok(id) => id,
            Err(_) => {
                return Err(SlcanError::InvalidData);
            },
        };
        let data = if is_rtr {
            Vec::new()
        } else {
            match string_to_num(slice_subrange(line, id_end + 1, n - 1)) {
                Ok(data) => data,
                Err(_) => {
                    return Err(SlcanError::InvalidData);
                },
            }
        };
        Ok(CanMsg { is_eff, is_rtr, id, data })
    }

    /// The line that transmits `msg`: the kind character, the id in three
    /// hex digits for a standard frame and eight for an extended one, the
    /// payload length as one decimal digit, the payload as hex text unless
    /// the frame is a remote one, and a carriage return. An id that does not
    /// fit its field loses its high digits. The receive buffer is emptied.
    pub fn write(&mut self, msg: CanMsg) -> (line: Vec<u8>)
        requires
            msg@.data.len() <= MAX_DATA_LEN,
        ensures
            line@ == command_line(frame_text(msg@)),
            final(self).received() == Seq::<u8>::empty(),
    {
        let id_bytes = u32_to_bytes(msg.id);
        let id_code = num_to_string(id_bytes.as_slice());
        let offset: usize = if msg.is_eff {
            0
        } else {
            5
        };
        let kind = if msg.is_eff {
            if msg.is_rtr {
                EXTENDED_REMOTE
            } else {
                EXTENDED_DATA
            }
        } else {
            if msg.is_rtr {
                STANDARD_REMOTE
            } else {
                STANDARD_DATA
            }
        };
        let mut text: Vec<u8> = Vec::new();
        text.push(kind);
        text.extend_from_slice(slice_subrange(id_code.as_slice(), offset, 8));
        text.push(DIGIT_0 + msg.data.len() as u8);
        if !msg.is_rtr {
            let mut payload = num_to_string(msg.data.as_slice());
            text.append(&mut payload);
        }
        self.begin(text)
    }

    /// Ends an exchange whose answer is a bare acknowledgement.
    ///
    /// A failed transfer gives `Io` and leaves the receive buffer empty.
    /// Otherwise the receive buffer takes the first 32 of the bytes that
    /// were read, and the command succeeded exactly when the last of them is
    /// a carriage return; if there is none, or another byte stands last, the
    /// result is `TimedOut`.
    pub fn exec_command(&mut self, reply: &Transfer) -> (result: Result<(), SlcanError>)
        ensures
            match *reply {
                Transfer::Failed => {
                    &&& result == Err::<(), SlcanError>(SlcanError::Io)
                    &&& final(self).received() == Seq::<u8>::empty()
                },
                Transfer::Received(bytes) => {
                    &&& final(self).received() == clipped(bytes@)
                    &&& result == if is_terminated(clipped(bytes@)) {
                        Ok::<(), SlcanError>(())
                    } else {
                        Err::<(), SlcanError>(SlcanError::TimedOut)
                    }
                },
            },
    {
        let n = match reply {
            Transfer::Failed => {
                self.buf.clear();
                return Err(SlcanError::Io);
            },
            Transfer::Received(bytes) => self.buf.fill(bytes.as_slice()),
        };
        if n > 0 && self.buf.get(n - 1) == CR {
            Ok(())
        } else {
            Err(SlcanError::TimedOut)
        }
    }

    /// Starts an exchange: empties the receive buffer and terminates `text`
    /// with a carriage return.
    fn begin(&mut self, text: Vec<u8>) -> (line: Vec<u8>)
        ensures
            line@ == command_line(text@),
            final(self).received() == Seq::<u8>::empty(),
    {
        self.buf.clear();
        let mut line = text;
        line.push(CR);
        line
    }
}

} // verus!
