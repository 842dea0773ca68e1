//! Command and response frames.
//!
//! A command is 6 bytes: opcode, one payload byte, three reserved zero
//! bytes, and the checksum of the first five. A response is 7 bytes whose
//! byte 6 is the checksum of bytes 0 to 4; the command-specific payload
//! sits in the leading bytes.

use vstd::prelude::*;
use vstd::slice::slice_subrange;
use crate::checksum::gen_checksum;
use crate::checksum::spec_checksum;

verus! {

/// Fixed 7-bit bus address of the sensor.
pub const MICS_VZ_89TE_ADDR: u8 = 0x70;

/// Opcode of the status (measurement) command.
pub const MICS_VZ_89TE_ADDR_CMD_GETSTATUS: u8 = 0x0C;

/// Opcode of the revision-date command.
pub const MICS_VZ_89TE_DATE_CODE: u8 = 0x0D;

/// Opcode of the calibration-read command.
pub const MICS_VZ_89TE_GET_CALIBR_VAL: u8 = 0x10;

/// Opcode of the calibration-write command.
pub const MICS_VZ_89TE_SET_CALIBR_PPM: u8 = 0x08;

/// The five leading bytes of a command frame: opcode, payload, zeros.
pub open spec fn spec_command_body(opcode: u8, payload: u8) -> Seq<u8> {
    seq![opcode, payload, 0u8, 0u8, 0u8]
}

/// A full 6-byte command frame: the body followed by its checksum.
pub open spec fn spec_command_frame(opcode: u8, payload: u8) -> Seq<u8> {
    spec_command_body(opcode, payload).push(spec_checksum(spec_command_body(opcode, payload)))
}

/// A 6-byte command frame is well formed when its last byte is the
/// checksum of its first five.
pub open spec fn command_frame_valid(f: Seq<u8>) -> bool {
    f.len() == 6 && f[5] == spec_checksum(f.take(5))
}

/// A 7-byte response frame is valid when its byte 6 is the checksum of
/// its bytes 0 to 4.
pub open spec fn response_frame_valid(f: Seq<u8>) -> bool {
    f.len() == 7 && f[6] == spec_checksum(f.take(5))
}

/// Build the 6-byte command frame for `opcode` with one `payload` byte:
/// three reserved zero bytes follow the payload, then the checksum.
pub fn make_command_frame(opcode: u8, payload: u8) -> (r: Vec<u8>)
    ensures
        r@ == spec_command_frame(opcode, payload),
{
    let mut frame: Vec<u8> = Vec::new();
    frame.push(opcode);
    frame.push(payload);
    frame.push(0);
    frame.push(0);
    frame.push(0);
    proof {
        assert(frame@ =~= spec_command_body(opcode, payload));
    }
    let check = gen_checksum(frame.as_slice());
    frame.push(check);
    proof {
        assert(frame@ =~= spec_command_frame(opcode, payload));
    }
    frame
}

/// Validate a 6-byte command frame with the same checksum arithmetic
/// that built it.
pub fn command_frame_is_valid(frame: &Vec<u8>) -> (r: bool)
    requires
        frame@.len() == 6,
    ensures
        r == command_frame_valid(frame@),
{
    let check = gen_checksum(slice_subrange(frame.as_slice(), 0, 5));
    proof {
        assert(frame@.subrange(0, 5) =~= frame@.take(5));
    }
    frame[5] == check
}

/// Validate a 7-byte response frame: byte 6 must be the checksum of
/// bytes 0 to 4.
pub fn response_frame_is_valid(frame: &Vec<u8>) -> (r: bool)
    requires
        frame@.len() == 7,
    ensures
        r == response_frame_valid(frame@),
{
    let check = gen_checksum(slice_subrange(frame.as_slice(), 0, 5));
    proof {
        assert(frame@.subrange(0, 5) =~= frame@.take(5));
    }
    frame[6] == check
}

/// Round trip: every command frame the builder produces passes the
/// validation that uses the same checksum function.
pub proof fn lemma_command_frame_round_trip(opcode: u8, payload: u8)
    ensures
        command_frame_valid(spec_command_frame(opcode, payload)),
{
    let body = spec_command_body(opcode, payload);
    let f = spec_command_frame(opcode, payload);
    assert(f.take(5) =~= body);
}

} // verus!
