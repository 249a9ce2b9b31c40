//! The line format.
//!
//! Every line, command and answer alike, ends in one carriage return.
//!
//! A frame line is `<kind><id><len><data>` and the carriage return: `kind`
//! is one of `t`, `T`, `r`, `R`; `id` is three hex digits for a standard
//! frame and eight for an extended one; `len` is one decimal digit; `data`
//! is the hex text of the payload and is absent from remote frames.

use vstd::prelude::*;

use crate::ascii::{CR, DIGIT_0, EXTENDED_DATA, EXTENDED_REMOTE, STANDARD_DATA, STANDARD_REMOTE};
use crate::buffer::clipped;
use crate::error::SlcanError;
use crate::frame::{Frame, MAX_EXTENDED_ID, MAX_STANDARD_ID};
use crate::hex::{
    all_hex_digits, be_bytes, hex_bytes, hex_number, hex_text, is_hex_text,
    lemma_hex_digits_number, lemma_hex_round_trip, lemma_last_three_digits_number,
};

verus! {

/// A command as it goes on the wire: its text and a carriage return.
pub open spec fn command_line(text: Seq<u8>) -> Seq<u8> {
    text.push(CR)
}

/// Whether `line` is not empty and ends in a carriage return.
pub open spec fn is_terminated(line: Seq<u8>) -> bool {
    line.len() > 0 && line.last() == CR
}

/// The character that opens the line of a frame of the given format.
pub open spec fn frame_kind(is_eff: bool, is_rtr: bool) -> u8 {
    if is_eff {
        if is_rtr {
            EXTENDED_REMOTE
        } else {
            EXTENDED_DATA
        }
    } else {
        if is_rtr {
            STANDARD_REMOTE
        } else {
            STANDARD_DATA
        }
    }
}

/// Number of hex digits in the id field.
pub open spec fn id_width(is_eff: bool) -> int {
    if is_eff {
        8
    } else {
        3
    }
}

/// The id field: the last `id_width` of the eight hex digits of `id`.
pub open spec fn id_field(is_eff: bool, id: u32) -> Seq<u8> {
    hex_text(be_bytes(id)).subrange(8 - id_width(is_eff), 8)
}

/// The decimal digit that stands for a payload length of at most nine.
pub open spec fn length_digit(len: nat) -> u8 {
    (DIGIT_0 + len) as u8
}

/// The text of the command that transmits `frame`.
pub open spec fn frame_text(frame: Frame) -> Seq<u8> {
    seq![frame_kind(frame.is_eff, frame.is_rtr)] + id_field(frame.is_eff, frame.id) + seq![
        length_digit(frame.data.len()),
    ] + if frame.is_rtr {
        Seq::empty()
    } else {
        hex_text(frame.data)
    }
}

/// Whether `c` opens a frame line.
pub open spec fn is_frame_kind(c: u8) -> bool {
    c == STANDARD_DATA || c == EXTENDED_DATA || c == STANDARD_REMOTE || c == EXTENDED_REMOTE
}

/// Whether the kind character `c` names an extended frame.
pub open spec fn kind_is_eff(c: u8) -> bool {
    c == EXTENDED_DATA || c == EXTENDED_REMOTE
}

/// Whether the kind character `c` names a remote frame.
pub open spec fn kind_is_rtr(c: u8) -> bool {
    c == STANDARD_REMOTE || c == EXTENDED_REMOTE
}

/// The id digits of a frame line.
pub open spec fn line_id(line: Seq<u8>) -> Seq<u8> {
    line.subrange(1, 1 + id_width(kind_is_eff(line[0])))
}

/// What stands between the length digit and the terminator of a frame line.
pub open spec fn line_payload(line: Seq<u8>) -> Seq<u8> {
    line.subrange(2 + id_width(kind_is_eff(line[0])), line.len() - 1)
}

/// Whether `line` is a frame line: at least six bytes, the last a carriage
/// return, a known kind, room for id and length digit, an id of hex digits,
/// and, in a data frame, a payload that is hex text.
pub open spec fn is_frame_line(line: Seq<u8>) -> bool {
    &&& line.len() >= 6
    &&& line.last() == CR
    &&& is_frame_kind(line[0])
    &&& line.len() >= 3 + id_width(kind_is_eff(line[0]))
    &&& all_hex_digits(line_id(line))
    &&& (!kind_is_rtr(line[0]) ==> is_hex_text(line_payload(line)))
}

/// The frame that a frame line carries. The id is the number that the id
/// digits write, whether or not it fits the frame format. The length digit
/// is not consulted: a data frame holds the payload that is there, a remote
/// frame none.
pub open spec fn line_frame(line: Seq<u8>) -> Frame {
    Frame {
        is_eff: kind_is_eff(line[0]),
        is_rtr: kind_is_rtr(line[0]),
        id: hex_number(line_id(line)) as u32,
        data: if kind_is_rtr(line[0]) {
            Seq::empty()
        } else {
            hex_bytes(line_payload(line))
        },
    }
}

/// What receiving `line` yields: its frame, or `InvalidData` if it is no
/// frame line.
pub open spec fn parse_line(line: Seq<u8>) -> Result<Frame, SlcanError> {
    if is_frame_line(line) {
        Ok(line_frame(line))
    } else {
        Err(SlcanError::InvalidData)
    }
}

/// The line of a valid frame has between six and twenty-seven bytes, so
/// that a receive buffer takes all of it.
pub proof fn lemma_frame_line_len(frame: Frame)
    requires
        frame.is_valid(),
    ensures
        command_line(frame_text(frame)).len() == 3 + id_width(frame.is_eff) + if frame.is_rtr {
            0
        } else {
            2 * frame.data.len()
        },
        6 <= command_line(frame_text(frame)).len() <= 27,
        clipped(command_line(frame_text(frame))) == command_line(frame_text(frame)),
{
}

/// The id field of an id that fits the frame format writes that id.
pub proof fn lemma_id_field_number(is_eff: bool, id: u32)
    requires
        id <= if is_eff {
            MAX_EXTENDED_ID
        } else {
            MAX_STANDARD_ID
        },
    ensures
        id_field(is_eff, id).len() == id_width(is_eff),
        all_hex_digits(id_field(is_eff, id)),
        hex_number(id_field(is_eff, id)) == id,
{
    let digits = hex_text(be_bytes(id));
    lemma_hex_digits_number(id);
    if is_eff {
        assert(id_field(is_eff, id) =~= digits);
    } else {
        lemma_last_three_digits_number(id);
    }
}

/// Receiving the line that transmits a valid frame gives the frame back as
/// an adapter reports it: kind, id and, for a data frame, payload are those
/// that were sent; a remote frame comes back without payload. A data frame,
/// and a remote frame that holds no payload, come back unchanged.
pub proof fn lemma_frame_round_trip(frame: Frame)
    requires
        frame.is_valid(),
    ensures
        parse_line(clipped(command_line(frame_text(frame)))) == Ok::<Frame, SlcanError>(
            frame.as_received(),
        ),
        !frame.is_rtr || frame.data.len() == 0 ==> parse_line(
            clipped(command_line(frame_text(frame))),
        ) == Ok::<Frame, SlcanError>(frame),
{
    let line = command_line(frame_text(frame));
    lemma_frame_line_len(frame);
    lemma_id_field_number(frame.is_eff, frame.id);
    assert(line_id(line) =~= id_field(frame.is_eff, frame.id));
    if frame.is_rtr {
        assert(line_frame(line).data =~= frame.as_received().data);
    } else {
        lemma_hex_round_trip(frame.data);
        assert(line_payload(line) =~= hex_text(frame.data));
    }
    if !frame.is_rtr || frame.data.len() == 0 {
        assert(frame.as_received().data =~= frame.data);
    }
}

} // verus!
