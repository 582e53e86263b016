use raspberry_switch_controller::models::{Stick, SwitchInput};
use raspberry_switch_controller::switch_proto::{
    bit_input, clamp_stick, device_info_response, device_info_subcommand_response, encode_input,
    handshake_packets, input_report, pack_shorts, packet, pairing_response,
    set_report_mode_response, simple_ack_response, slot_mac, spi_data, spi_read_response,
    stick_12bit, subcommand_response,
};

fn idle() -> SwitchInput {
    SwitchInput::neutral_input()
}

#[test]
fn neutral_input_bytes() {
    assert_eq!(
        encode_input(&idle()),
        [0x81, 0, 0, 0, 0x00, 0x08, 0x80, 0x00, 0x08, 0x80, 0x00]
    );
}

#[test]
fn all_buttons_bytes() {
    let input = SwitchInput {
        dpad_up: true,
        dpad_down: true,
        dpad_left: true,
        dpad_right: true,
        a: true,
        b: true,
        x: true,
        y: true,
        r: true,
        zr: true,
        l: true,
        zl: true,
        home: true,
        plus: true,
        minus: true,
        capture: true,
        left_stick_press: true,
        right_stick_press: true,
        left_stick: Stick::new(0, 4095),
        right_stick: Stick::new(4095, 0),
        battery: 0x81,
    };
    assert_eq!(
        encode_input(&input),
        [0x81, 0xcf, 0x3f, 0xcf, 0x00, 0xf0, 0xff, 0xff, 0x0f, 0x00, 0x00]
    );
}

#[test]
fn each_button_has_its_bit() {
    let mut input = idle();
    input.y = true;
    assert_eq!(encode_input(&input)[1], 0x01);
    input = idle();
    input.x = true;
    assert_eq!(encode_input(&input)[1], 0x02);
    input = idle();
    input.b = true;
    assert_eq!(encode_input(&input)[1], 0x04);
    input = idle();
    input.a = true;
    assert_eq!(encode_input(&input)[1], 0x08);
    input = idle();
    input.zr = true;
    assert_eq!(encode_input(&input)[1], 0x80);
    input = idle();
    input.minus = true;
    assert_eq!(encode_input(&input)[2], 0x01);
    input = idle();
    input.left_stick_press = true;
    assert_eq!(encode_input(&input)[2], 0x08);
    input = idle();
    input.capture = true;
    assert_eq!(encode_input(&input)[2], 0x20);
    input = idle();
    input.dpad_down = true;
    assert_eq!(encode_input(&input)[3], 0x01);
    input = idle();
    input.dpad_up = true;
    assert_eq!(encode_input(&input)[3], 0x02);
    input = idle();
    input.l = true;
    assert_eq!(encode_input(&input)[3], 0x40);
}

#[test]
fn sticks_are_clamped_to_twelve_bits() {
    assert_eq!(clamp_stick(-1), 0);
    assert_eq!(clamp_stick(0), 0);
    assert_eq!(clamp_stick(2048), 2048);
    assert_eq!(clamp_stick(4095), 4095);
    assert_eq!(clamp_stick(9000), 4095);
    assert_eq!(stick_12bit(&Stick::new(-5, 5000)), (0, 4095));
}

#[test]
fn shorts_are_packed_by_nibbles() {
    assert_eq!(pack_shorts(0x123, 0xabc), [0x23, 0xc1, 0xab]);
    assert_eq!(pack_shorts(0xf123, 0x5abc), [0x23, 0xc1, 0xab]);
    assert_eq!(pack_shorts(0, 0), [0, 0, 0]);
    assert_eq!(pack_shorts(0xfff, 0xfff), [0xff, 0xff, 0xff]);
    assert_eq!(bit_input(true, 5), 0x20);
    assert_eq!(bit_input(false, 5), 0);
}

#[test]
fn packets_are_padded_and_cut() {
    let short = packet(0x81, 0x03, &[1, 2, 3]);
    assert_eq!(short.len(), 64);
    assert_eq!(&short[..6], &[0x81, 0x03, 1, 2, 3, 0]);
    assert!(short[5..].iter().all(|b| *b == 0));
    let long = packet(0x81, 0x03, &[7; 100]);
    assert_eq!(long.len(), 64);
    assert!(long[2..].iter().all(|b| *b == 7));
}

#[test]
fn input_report_carries_battery_and_vibrator_byte() {
    let mut input = idle();
    input.battery = 0x41;
    let report = input_report(9, &input);
    assert_eq!(report.len(), 64);
    assert_eq!(report[0], 0x30);
    assert_eq!(report[1], 9);
    assert_eq!(report[2], 0x41);
    assert_eq!(report[12], 0x09);
    assert_eq!(&report[6..12], &[0x00, 0x08, 0x80, 0x00, 0x08, 0x80]);
    assert!(report[13..].iter().all(|b| *b == 0));
}

#[test]
fn handshake_is_two_packets() {
    let packets = handshake_packets();
    assert_eq!(packets.len(), 2);
    assert_eq!(&packets[0][..3], &[0x81, 0x03, 0x00]);
    assert_eq!(&packets[1][..5], &[0x81, 0x01, 0x00, 0x03, 0x00]);
}

#[test]
fn subcommand_acknowledge_byte() {
    let plain = subcommand_response(3, &idle(), true, 0x40, &[]);
    assert_eq!(&plain[..3], &[0x21, 3, 0x81]);
    assert_eq!((plain[13], plain[14]), (0x80, 0x40));
    let data = subcommand_response(3, &idle(), true, 0x10, &[5, 6]);
    assert_eq!((data[13], data[14]), (0x90, 0x10));
    assert_eq!(&data[15..18], &[5, 6, 0]);
    let refused = subcommand_response(3, &idle(), false, 0x10, &[]);
    assert_eq!((refused[13], refused[14]), (0x00, 0x10));
}

#[test]
fn canned_replies() {
    assert_eq!(
        &set_report_mode_response(0, &idle(), 0x21)[13..23],
        &[0xa1, 0x21, 0x01, 0x00, 0xff, 0x00, 0x03, 0x00, 0x05, 0x01]
    );
    assert_eq!(
        &pairing_response(0, &idle(), 0x01)[13..17],
        &[0x81, 0x01, 0x03, 0x01]
    );
    assert_eq!(&simple_ack_response(0x02)[..3], &[0x81, 0x02, 0x00]);
}

#[test]
fn device_info_names_the_slot() {
    assert_eq!(slot_mac(0), [0x00, 0x00, 0x5e, 0x00, 0x53, 0x5f]);
    assert_eq!(slot_mac(3), [0x00, 0x00, 0x5e, 0x00, 0x53, 0x62]);
    assert_eq!(
        &device_info_response(1, 0x01)[..10],
        &[0x81, 0x01, 0x00, 0x03, 0x00, 0x00, 0x5e, 0x00, 0x53, 0x60]
    );
    assert_eq!(
        &device_info_subcommand_response(0, &idle(), 2, 0x02)[13..27],
        &[
            0x82, 0x02, 0x03, 0x48, 0x03, 0x02, 0x00, 0x00, 0x5e, 0x00, 0x53, 0x61, 0x03, 0x01
        ]
    );
    for a in 0..8 {
        for b in 0..a {
            assert_ne!(slot_mac(a), slot_mac(b));
        }
    }
}

fn spi_request(addr: u8, start: u8, len: u8) -> Vec<u8> {
    let mut report = vec![0u8; 16];
    report[0] = 0x01;
    report[10] = 0x10;
    report[11] = start;
    report[12] = addr;
    report[15] = len;
    report
}

#[test]
fn spi_reads_in_range() {
    let reply = spi_read_response(1, &idle(), &spi_request(0x80, 0x26, 2)).unwrap();
    assert_eq!(
        &reply[13..22],
        &[0x90, 0x10, 0x26, 0x80, 0x00, 0x00, 0x02, 0xb2, 0xa1]
    );
    let params = spi_read_response(1, &idle(), &spi_request(0x60, 0x80, 6)).unwrap();
    assert_eq!(&params[20..26], &[0x50, 0xfd, 0x00, 0x00, 0xc6, 0x0f]);
    assert!(spi_read_response(1, &idle(), &spi_request(0x60, 176, 0)).is_some());
    assert_eq!(spi_data(0x60).unwrap().len(), 176);
    assert_eq!(spi_data(0x80).unwrap().len(), 64);
}

#[test]
fn spi_reads_out_of_range() {
    assert!(spi_read_response(1, &idle(), &spi_request(0x80, 0x26, 0x40)).is_none());
    assert!(spi_read_response(1, &idle(), &spi_request(0x60, 255, 255)).is_none());
    assert!(spi_read_response(1, &idle(), &spi_request(0x50, 0, 1)).is_none());
    assert!(spi_read_response(1, &idle(), &spi_request(0x80, 0, 1)[..15]).is_none());
    assert!(spi_data(0x50).is_none());
}
