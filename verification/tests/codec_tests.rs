use lightctl::nanlite::{cct_frame, encode_transmission, hsi_frame, pipe_address};
use lightctl::translate::LightCommand;

#[test]
fn pipe_address_is_big_endian_in_last_two_bytes() {
    assert_eq!(pipe_address(7), [0, 0, 0, 0, 7]);
    assert_eq!(pipe_address(1), [0, 0, 0, 0, 1]);
    assert_eq!(pipe_address(256), [0, 0, 0, 1, 0]);
    assert_eq!(pipe_address(512), [0, 0, 0, 2, 0]);
}

#[test]
fn cct_frame_plain_case() {
    // check = 50 + 0 = 50, gm byte 50; no collision since 50 != 50 ^ 0xff.
    assert_eq!(cct_frame(50, 0, 50), [50, 0, 50, 50]);
}

#[test]
fn cct_frame_saturates_inputs() {
    assert_eq!(cct_frame(200, 255, 101), [100, 100, 100, 200]);
}

#[test]
fn cct_frame_collision_bumps_cct_up() {
    // 60 + 95 = 155 == 100 ^ 0xff: cct moves to 96 and the check to 156.
    let frame = cct_frame(60, 95, 100);
    assert_eq!(frame, [60, 96, 100, 156]);
    assert_ne!(frame[3], frame[2] ^ 0xff);
}

#[test]
fn cct_frame_collision_at_top_of_range_bumps_down() {
    // 100 + 100 = 200 == 55 ^ 0xff and cct is at its maximum: it moves down.
    let frame = cct_frame(100, 100, 55);
    assert_eq!(frame, [100, 99, 55, 199]);
    assert_ne!(frame[3], frame[2] ^ 0xff);
}

#[test]
fn cct_check_never_collides_with_gm_sentinel() {
    for intensity in 0u16..=101 {
        for cct in 0u16..=101 {
            for gm in 0u16..=101 {
                let frame = cct_frame(intensity as u8, cct as u8, gm as u8);
                assert_ne!(frame[3], frame[2] ^ 0xff);
                assert_eq!(frame[3], frame[0].wrapping_add(frame[1]));
            }
        }
    }
}

#[test]
fn hsi_frame_layout() {
    assert_eq!(hsi_frame(180, 100, 10), [0xf0, 10, 180, 100]);
    assert_eq!(hsi_frame(300, 50, 20), [0xf1, 20, 44, 50]);
}

#[test]
fn hsi_frame_saturates_inputs() {
    // hue 400 saturates to 360 = 0x168: high bit set, low byte 0x68.
    assert_eq!(hsi_frame(400, 150, 200), [0xf1, 100, 0x68, 100]);
}

#[test]
fn encode_transmission_routes_and_encodes() {
    let t = encode_transmission(7, LightCommand::CCT(50, 0, 50));
    assert_eq!(t.pipe, [0, 0, 0, 0, 7]);
    assert_eq!(t.frame, [50, 0, 50, 50]);
    let t = encode_transmission(258, LightCommand::HSI(180, 100, 10));
    assert_eq!(t.pipe, [0, 0, 0, 1, 2]);
    assert_eq!(t.frame, [0xf0, 10, 180, 100]);
}
