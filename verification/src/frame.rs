//! Command frames written to the treadmill's command characteristic.
//!
//! A frame is seven bytes: a fixed `f0 c3` prefix, a length byte, a command
//! byte, a parameter byte, a zero byte, and a trailing checksum that is the
//! sum of all preceding bytes modulo 256. Frames are built with the checksum
//! computed, never written out as bare literals, so the checksum invariant
//! holds by construction.

use vstd::prelude::*;

verus! {

/// Milliseconds the device firmware needs after the resume frame before it
/// accepts the next command.
pub const RESUME_SETTLE_MILLIS: u64 = 8000;

/// The two frames the sequencer sends: resume running (the remote's power
/// button), and set the motor speed. The speed frame carries a fixed
/// parameter; the vendor encoding of other speeds is not established, so the
/// known-good byte is kept as is.
#[derive(Clone, Copy, Debug, PartialEq, Eq, Structural)]
pub enum FrameKind {
    Resume,
    SetSpeed,
}

/// Sum of the bytes of a sequence, as a mathematical integer.
pub open spec fn byte_sum(s: Seq<u8>) -> int
    decreases s.len(),
{
    if s.len() == 0 {
        0
    } else {
        byte_sum(s.drop_last()) + s.last()
    }
}

/// The frame's last byte is the sum of all preceding bytes modulo 256.
pub open spec fn frame_checksum_ok(f: Seq<u8>) -> bool {
    f.len() >= 1 && f.last() == byte_sum(f.drop_last()) % 256
}

/// Checksum byte of a frame with the given command and parameter bytes:
/// the five leading bytes `f0 c3 03 cmd param 00` summed modulo 256.
pub open spec fn frame_checksum_byte(cmd: u8, param: u8) -> u8 {
    ((0xf0 + 0xc3 + 0x03 + cmd + param) % 256) as u8
}

/// The full seven-byte frame for a command and parameter.
pub open spec fn spec_frame(cmd: u8, param: u8) -> Seq<u8> {
    seq![0xf0u8, 0xc3u8, 0x03u8, cmd, param, 0x00u8, frame_checksum_byte(cmd, param)]
}

/// The bytes of each frame the sequencer sends.
pub open spec fn spec_frame_bytes(kind: FrameKind) -> Seq<u8> {
    match kind {
        FrameKind::Resume => spec_frame(0x01, 0x00),
        FrameKind::SetSpeed => spec_frame(0x03, 0x14),
    }
}

/// Builds the seven-byte frame for a command and parameter, computing the
/// trailing checksum.
pub fn build_frame(cmd: u8, param: u8) -> (r: Vec<u8>)
    ensures
        r@ == spec_frame(cmd, param),
        frame_checksum_ok(r@),
{
    let sum: u16 = 0xf0u16 + 0xc3u16 + 0x03u16 + (cmd as u16) + (param as u16);
    let checksum: u8 = (sum % 256) as u8;
    let mut frame: Vec<u8> = Vec::new();
    frame.push(0xf0);
    frame.push(0xc3);
    frame.push(0x03);
    frame.push(cmd);
    frame.push(param);
    frame.push(0x00);
    frame.push(checksum);
    proof {
        assert(frame@ =~= spec_frame(cmd, param));
        reveal_with_fuel(byte_sum, 8);
        assert(frame@.drop_last() =~= seq![0xf0u8, 0xc3u8, 0x03u8, cmd, param, 0x00u8]);
    }
    frame
}

/// The bytes sent for a frame kind.
///
/// The resume frame is `f0 c3 03 01 00 00 b7`; the fixed speed frame is
/// `f0 c3 03 03 14 00 cd`.
pub fn frame_bytes(kind: FrameKind) -> (r: Vec<u8>)
    ensures
        r@ == spec_frame_bytes(kind),
        frame_checksum_ok(r@),
{
    match kind {
        FrameKind::Resume => build_frame(0x01, 0x00),
        FrameKind::SetSpeed => build_frame(0x03, 0x14),
    }
}

/// Checks the trailing-checksum invariant of an arbitrary frame.
pub fn checksum_valid(frame: &[u8]) -> (r: bool)
    ensures
        r == frame_checksum_ok(frame@),
{
    if frame.len() == 0 {
        return false;
    }
    let mut sum: u8 = 0;
    let end: usize = frame.len() - 1;
    for i in 0..end
        invariant
            end == frame@.len() - 1,
            sum == byte_sum(frame@.take(i as int)) % 256,
    {
        proof {
            assert(frame@.take(i + 1).drop_last() =~= frame@.take(i as int));
            assert(frame@.take(i + 1).last() == frame@[i as int]);
            vstd::arithmetic::div_mod::lemma_add_mod_noop(
                byte_sum(frame@.take(i as int)),
                frame@[i as int] as int,
                256,
            );
        }
        sum = ((sum as u16 + frame[i] as u16) % 256) as u8;
    }
    proof {
        assert(frame@.take(end as int) =~= frame@.drop_last());
        assert(frame@.last() == frame@[end as int]);
    }
    frame[end] == sum
}

} // verus!
