use raspberry_switch_controller::levels::{hdr_level, HDR_AMP_MIN, RUMBLE_AMP_MAX};
use raspberry_switch_controller::rumble::{
    decode_rumble, hdr_amp5, hdr_amp7, hdr_decode, hdr_field, hdr_reset_slot, HdrBands, HdrState,
};

fn bands(lo: i16, hi: i16) -> HdrBands {
    HdrBands { lo, hi }
}

fn frame(w: u32) -> [u8; 4] {
    w.to_le_bytes()
}

#[test]
fn levels_follow_the_exponential_curve() {
    for units in HDR_AMP_MIN..=0 {
        let log = units as f32 / 32.0;
        let amp = if log >= -7.9375 { log.exp2() } else { 0.0 };
        let expected = (amp * 1003.0).round() as u16;
        assert_eq!(hdr_level(units), expected, "{}", units);
    }
    assert_eq!(hdr_level(0), RUMBLE_AMP_MAX);
    assert_eq!(hdr_level(-32), 502);
    assert_eq!(hdr_level(-256), 0);
}

#[test]
fn seven_bit_codes() {
    assert_eq!(hdr_amp7(0), -256);
    assert_eq!(hdr_amp7(1), -240);
    assert_eq!(hdr_amp7(15), -128);
    assert_eq!(hdr_amp7(16), -126);
    assert_eq!(hdr_amp7(31), -96);
    assert_eq!(hdr_amp7(32), -95);
    assert_eq!(hdr_amp7(127), 0);
}

#[test]
fn five_bit_commands() {
    assert_eq!(hdr_amp5(0, -10), -256);
    assert_eq!(hdr_amp5(1, -200), 0);
    assert_eq!(hdr_amp5(11, 0), -160);
    assert_eq!(hdr_amp5(12, -77), -77);
    assert_eq!(hdr_amp5(17, -50), -46);
    assert_eq!(hdr_amp5(17, -2), 0);
    assert_eq!(hdr_amp5(20, -50), -49);
    assert_eq!(hdr_amp5(23, -50), -50);
    assert_eq!(hdr_amp5(26, -50), -51);
    assert_eq!(hdr_amp5(29, -50), -54);
    assert_eq!(hdr_amp5(31, -255), -256);
}

#[test]
fn bit_fields() {
    assert_eq!(hdr_field(0xc000_0000, 30, 2), 3);
    assert_eq!(hdr_field(0x0001_2345, 4, 8), 0x34);
    assert_eq!(hdr_field(0xffff_ffff, 23, 7), 127);
}

#[test]
fn hold_frame_keeps_the_amplitudes() {
    let mut state = bands(-32, -256);
    assert_eq!(hdr_decode(&mut state, &frame(0x0140_4000)), 502);
    assert_eq!(state, bands(-32, -256));
}

#[test]
fn single_five_bit_frame() {
    // Low band to full level, high band silent.
    let w: u32 = (1 << 30) | (1 << 25);
    let mut state = bands(-256, -256);
    assert_eq!(hdr_decode(&mut state, &frame(w)), 1003);
    assert_eq!(state, bands(0, -256));
}

#[test]
fn single_seven_bit_frame() {
    // Both bands by absolute code: 127 is full level, 95 an octave below.
    let w: u32 = (1 << 30) | (95 << 23) | (127 << 9);
    let mut state = bands(-256, -256);
    assert_eq!(hdr_decode(&mut state, &frame(w)), 1003);
    assert_eq!(state, bands(-32, 0));
}

#[test]
fn single_code_and_burst_frame() {
    // High band by absolute code, then two steps: down by 4, then silence.
    let w: u32 = (1 << 30) | (95 << 23) | (12 << 18) | (29 << 13) | (12 << 8) | (0 << 3) | 1;
    let mut state = bands(-256, -256);
    assert_eq!(hdr_decode(&mut state, &frame(w)), 502);
    assert_eq!(state, bands(-256, -256));
    // The same with the code left out: the high band starts from -64.
    let w: u32 = (1 << 30) | (12 << 18) | (17 << 13) | (12 << 8) | (20 << 3) | 4 | 1;
    let mut state = bands(-256, -64);
    assert_eq!(hdr_decode(&mut state, &frame(w)), hdr_level(-59));
    assert_eq!(state, bands(-256, -59));
}

#[test]
fn double_frames() {
    let w: u32 = (2 << 30) | (3 << 25) | (12 << 20) | (0 << 15) | (12 << 10);
    let mut state = bands(-256, -100);
    assert_eq!(hdr_decode(&mut state, &frame(w)), 502);
    assert_eq!(state, bands(-256, -100));
    let w: u32 = (2 << 30) | (127 << 23) | (3 << 18) | (29 << 13) | (0 << 8) | 1;
    let mut state = bands(-256, -256);
    assert_eq!(hdr_decode(&mut state, &frame(w)), 1003);
    assert_eq!(state, bands(-36, -256));
    let w: u32 = (2 << 30) | (127 << 23) | (3 << 18) | (29 << 13) | (0 << 8) | 2;
    let mut state = bands(-256, -256);
    assert_eq!(hdr_decode(&mut state, &frame(w)), 1003);
    assert_eq!(state, bands(-4, -256));
}

#[test]
fn triple_frame() {
    let w: u32 =
        (3 << 30) | (1 << 25) | (0 << 20) | (29 << 15) | (5 << 10) | (0 << 5) | 12;
    let mut state = bands(-256, -256);
    assert_eq!(hdr_decode(&mut state, &frame(w)), 1003);
    assert_eq!(state, bands(-256, -64));
}

fn report(left: [u8; 4], right: [u8; 4]) -> Vec<u8> {
    let mut bytes = vec![0x10, 0x00];
    bytes.extend_from_slice(&left);
    bytes.extend_from_slice(&right);
    bytes
}

#[test]
fn silence_gives_no_rumble() {
    let mut state = HdrState::new();
    let neutral = [0x00, 0x01, 0x40, 0x40];
    assert_eq!(
        decode_rumble(&report(neutral, neutral), &mut state),
        Some((0, 0))
    );
    let hold = [0, 0, 0, 0];
    hdr_reset_slot(&mut state);
    assert_eq!(decode_rumble(&report(hold, hold), &mut state), Some((0, 0)));
    assert_eq!(state, HdrState::new());
}

#[test]
fn full_level_gives_full_magnitude() {
    let mut state = HdrState::new();
    let full = frame((1 << 30) | (1 << 25) | (1 << 20));
    let hold = [0, 0, 0, 0];
    assert_eq!(
        decode_rumble(&report(full, hold), &mut state),
        Some((255, 0))
    );
    // The left motor holds its level until it is told otherwise.
    assert_eq!(
        decode_rumble(&report(hold, full), &mut state),
        Some((255, 255))
    );
    hdr_reset_slot(&mut state);
    assert_eq!(decode_rumble(&report(hold, hold), &mut state), Some((0, 0)));
}

#[test]
fn half_level_is_scaled() {
    let mut state = HdrState::new();
    let half = frame((1 << 30) | (3 << 25));
    assert_eq!(
        decode_rumble(&report(half, half), &mut state),
        Some((127, 127))
    );
}

#[test]
fn other_reports_are_not_rumble() {
    let mut state = HdrState::new();
    let full = frame((1 << 30) | (1 << 25));
    let mut other = report(full, full);
    other[0] = 0x11;
    assert_eq!(decode_rumble(&other, &mut state), None);
    assert_eq!(decode_rumble(&report(full, full)[..9], &mut state), None);
    assert_eq!(decode_rumble(&[], &mut state), None);
    assert_eq!(state, HdrState::new());
}
