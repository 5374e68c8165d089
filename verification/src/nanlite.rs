//! The wire codec: exact byte encoding of a radio command and of the 5-byte
//! pipe address that routes it to one light.
//!
//! Each transmission is a fixed 4-byte payload. A CCT frame carries
//! `[intensity, cct, gm, check]` with `check = intensity + cct (mod 256)`;
//! the check byte must never collide with `gm ^ 0xff`, which a receiving
//! light would read as an HSI sentinel. An HSI frame carries
//! `[0xf0 | hue_high_bit, intensity, hue_low_byte, sat]`.

use vstd::prelude::*;

use crate::translate::LightCommand;

verus! {

/// One physical transmission: the pipe address to switch the transceiver to,
/// then the 4-byte payload to send.
#[derive(Debug, Clone, Copy, PartialEq, Eq)]
pub struct Transmission {
    pub pipe: [u8; 5],
    pub frame: [u8; 4],
}

/// Saturation of a byte value to an upper bound.
pub open spec fn cap8_spec(v: u8, max: u8) -> u8 {
    if v > max {
        max
    } else {
        v
    }
}

/// The 5-byte pipe address of a light: three zero bytes, then the big-endian
/// bytes of its configured radio address.
pub open spec fn pipe_address_spec(addr: u16) -> Seq<u8> {
    seq![0u8, 0u8, 0u8, (addr / 256) as u8, (addr % 256) as u8]
}

/// The CCT payload for saturated inputs `i`, `c`, `g` (each already 0..100):
/// `[i, c, g, i + c]`, with `c` nudged by one step when the check byte would
/// collide with `g ^ 0xff`.
pub open spec fn cct_payload_spec(i: u8, c: u8, g: u8) -> Seq<u8>
    recommends
        i <= 100,
        c <= 100,
{
    let check = (i + c) as u8;
    if check == g ^ 0xff {
        let c2 = if c == 100 {
            99u8
        } else {
            (c + 1) as u8
        };
        seq![i, c2, g, (i + c2) as u8]
    } else {
        seq![i, c, g, check]
    }
}

/// The full CCT frame: every input saturated to 0..100, then the payload rule.
pub open spec fn cct_frame_spec(intensity: u8, cct: u8, gm: u8) -> Seq<u8> {
    cct_payload_spec(cap8_spec(intensity, 100), cap8_spec(cct, 100), cap8_spec(gm, 100))
}

/// The full HSI frame: hue saturated to 0..360, sat and intensity to 0..100,
/// then `[0xf0 | hue >> 8, intensity, hue & 0xff, sat]`. The top nibble plus
/// the high bit of the 9-bit hue distinguish it from a CCT frame.
pub open spec fn hsi_frame_spec(hue: u16, sat: u8, intensity: u8) -> Seq<u8> {
    let h = if hue > 360 {
        360u16
    } else {
        hue
    };
    seq![
        0xf0u8 | ((h >> 8) as u8),
        cap8_spec(intensity, 100),
        (h & 0xff) as u8,
        cap8_spec(sat, 100),
    ]
}

/// The payload bytes of a radio command.
pub open spec fn frame_spec(cmd: LightCommand) -> Seq<u8> {
    match cmd {
        LightCommand::CCT(dim, ct, gm) => cct_frame_spec(dim, ct, gm),
        LightCommand::HSI(hue, sat, dim) => hsi_frame_spec(hue, sat, dim),
    }
}

/// The whole wire form of one queued command: pipe address and payload.
pub open spec fn wire_spec(addr: u16, cmd: LightCommand) -> (Seq<u8>, Seq<u8>) {
    (pipe_address_spec(addr), frame_spec(cmd))
}

/// Builds the 5-byte pipe address for a radio address.
pub fn pipe_address(addr: u16) -> (r: [u8; 5])
    ensures
        r@ == pipe_address_spec(addr),
{
    let r: [u8; 5] = [0u8, 0u8, 0u8, (addr / 256) as u8, (addr % 256) as u8];
    assert(r@ =~= pipe_address_spec(addr));
    r
}

/// Encodes a CCT frame. The check byte never equals `gm ^ 0xff`: when the
/// plain sum would collide, `cct` is moved one step (down at the top of its
/// range, up otherwise) and the check recomputed.
pub fn cct_frame(intensity: u8, cct: u8, gm: u8) -> (r: [u8; 4])
    ensures
        r@ == cct_frame_spec(intensity, cct, gm),
        r@[3] != r@[2] ^ 0xff,
{
    let i: u8 = if intensity > 100 {
        100
    } else {
        intensity
    };
    let c: u8 = if cct > 100 {
        100
    } else {
        cct
    };
    let g: u8 = if gm > 100 {
        100
    } else {
        gm
    };
    let check: u8 = i + c;
    let r: [u8; 4] = if check == g ^ 0xff {
        let c2: u8 = if c == 100 {
            99
        } else {
            c + 1
        };
        let check2: u8 = i + c2;
        [i, c2, g, check2]
    } else {
        [i, c, g, check]
    };
    assert(r@ =~= cct_frame_spec(intensity, cct, gm));
    r
}

/// Encodes an HSI frame.
pub fn hsi_frame(hue: u16, sat: u8, intensity: u8) -> (r: [u8; 4])
    ensures
        r@ == hsi_frame_spec(hue, sat, intensity),
{
    let h: u16 = if hue > 360 {
        360
    } else {
        hue
    };
    let s: u8 = if sat > 100 {
        100
    } else {
        sat
    };
    let i: u8 = if intensity > 100 {
        100
    } else {
        intensity
    };
    let r: [u8; 4] = [0xf0u8 | ((h >> 8) as u8), i, (h & 0xff) as u8, s];
    assert(r@ =~= hsi_frame_spec(hue, sat, intensity));
    r
}

/// Encodes the full wire form of one queued `(address, command)` pair.
pub fn encode_transmission(addr: u16, cmd: LightCommand) -> (t: Transmission)
    ensures
        t.pipe@ == wire_spec(addr, cmd).0,
        t.frame@ == wire_spec(addr, cmd).1,
{
    let frame = match cmd {
        LightCommand::CCT(dim, ct, gm) => cct_frame(dim, ct, gm),
        LightCommand::HSI(hue, sat, dim) => hsi_frame(hue, sat, dim),
    };
    Transmission { pipe: pipe_address(addr), frame }
}

/// The CCT frame invariant: for every input, the emitted frame's check byte
/// (byte 3) differs from `gm ^ 0xff` (byte 2 complemented), so a CCT frame
/// can never be mistaken for the HSI sentinel pattern.
pub proof fn lemma_cct_check_invariant(intensity: u8, cct: u8, gm: u8)
    ensures
        cct_frame_spec(intensity, cct, gm)[3] != cct_frame_spec(intensity, cct, gm)[2] ^ 0xff,
{
}

/// The two frame kinds are distinguishable by their first byte: a CCT frame
/// starts with a saturated intensity, at most 100, while an HSI frame starts
/// with the 0xf0 nibble over the hue's high bit, at least 0xf0.
pub proof fn lemma_frame_kinds_disjoint(i: u8, c: u8, g: u8, hue: u16, s: u8, n: u8)
    ensures
        cct_frame_spec(i, c, g)[0] <= 100,
        hsi_frame_spec(hue, s, n)[0] >= 0xf0,
{
    let h = if hue > 360 {
        360u16
    } else {
        hue
    };
    assert(0xf0u8 | ((h >> 8) as u8) >= 0xf0) by (bit_vector);
}

} // verus!
