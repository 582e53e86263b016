use raspberry_switch_controller::models::{Rumble, SwitchInput};
use raspberry_switch_controller::slot::{HostAction, SlotLink};

fn reply(action: HostAction) -> Vec<u8> {
    match action {
        HostAction::Reply(bytes) => bytes,
        _ => panic!("no reply"),
    }
}

fn ignored(action: HostAction) -> bool {
    matches!(action, HostAction::Ignore)
}

fn subcommand(sub_cmd: u8, argument: &[u8]) -> Vec<u8> {
    let mut report = vec![0u8; 11];
    report[0] = 0x01;
    report[10] = sub_cmd;
    report.extend_from_slice(argument);
    report
}

#[test]
fn a_fresh_slot_is_silent() {
    let mut link = SlotLink::new(2);
    assert_eq!(link.tick(Some(SwitchInput::default())), None);
    assert_eq!(link.count, 0);
    assert_eq!(link.latest, SwitchInput::default());
    assert!(ignored(link.on_host_report(&[0x80, 0x07])));
    assert_eq!(link.tick(None), None);
}

#[test]
fn usb_command_starts_and_stops_the_stream() {
    let mut link = SlotLink::new(0);
    assert!(ignored(link.on_host_report(&[0x80, 0x04])));
    let first = link.tick(None).unwrap();
    assert_eq!(&first[..3], &[0x30, 0x01, 0x81]);
    let second = link.tick(None).unwrap();
    assert_eq!(second[1], 0x02);
    assert!(ignored(link.on_host_report(&[0x80, 0x05])));
    assert_eq!(link.tick(None), None);
    assert_eq!(link.count, 2);
}

#[test]
fn report_mode_opens_the_stream() {
    let mut link = SlotLink::new(0);
    let answer = reply(link.on_host_report(&subcommand(0x21, &[0x3f])));
    assert_eq!(&answer[13..16], &[0xa1, 0x21, 0x01]);
    assert_eq!(link.tick(None), None);
    reply(link.on_host_report(&subcommand(0x21, &[0x30])));
    assert!(link.tick(None).is_some());
    // Another mode leaves the stream open, and so does the USB command.
    reply(link.on_host_report(&subcommand(0x21, &[0x3f])));
    assert!(ignored(link.on_host_report(&[0x80, 0x05])));
    assert!(link.tick(None).is_some());
}

#[test]
fn truncated_report_mode_is_ignored() {
    let mut link = SlotLink::new(0);
    assert!(ignored(link.on_host_report(&subcommand(0x21, &[]))));
    assert_eq!(link, SlotLink::new(0));
}

#[test]
fn a_lost_connection_closes_the_stream() {
    let mut link = SlotLink::new(5);
    link.on_host_report(&[0x80, 0x04]);
    link.on_host_report(&subcommand(0x21, &[0x30]));
    link.tick(None);
    link.connection_lost();
    assert_eq!(link.tick(None), None);
    assert_eq!(link.count, 1);
    assert_eq!(link.hdr, SlotLink::new(5).hdr);
    link.on_host_report(&[0x80, 0x04]);
    assert_eq!(link.tick(None).unwrap()[1], 2);
}

#[test]
fn the_counter_wraps() {
    let mut link = SlotLink::new(0);
    link.on_host_report(&[0x80, 0x04]);
    link.count = 255;
    assert_eq!(link.tick(None).unwrap()[1], 0);
}

#[test]
fn usb_commands_are_answered() {
    let mut link = SlotLink::new(1);
    assert_eq!(
        &reply(link.on_host_report(&[0x80, 0x01]))[..10],
        &[0x81, 0x01, 0x00, 0x03, 0x00, 0x00, 0x5e, 0x00, 0x53, 0x60]
    );
    assert_eq!(&reply(link.on_host_report(&[0x80, 0x02]))[..3], &[0x81, 0x02, 0]);
    assert_eq!(&reply(link.on_host_report(&[0x80, 0x03]))[..3], &[0x81, 0x03, 0]);
}

#[test]
fn subcommands_are_answered() {
    let mut link = SlotLink::new(1);
    link.count = 77;
    for sub_cmd in [0x03u8, 0x04, 0x08, 0x30, 0x38, 0x40, 0x41, 0x48] {
        let answer = reply(link.on_host_report(&subcommand(sub_cmd, &[])));
        assert_eq!(answer.len(), 64);
        assert_eq!(&answer[..3], &[0x21, 77, 0x81]);
        assert_eq!((answer[13], answer[14]), (0x80, sub_cmd));
    }
    assert_eq!(
        &reply(link.on_host_report(&subcommand(0x01, &[])))[13..17],
        &[0x81, 0x01, 0x03, 0x01]
    );
    assert_eq!(
        &reply(link.on_host_report(&subcommand(0x02, &[])))[13..19],
        &[0x82, 0x02, 0x03, 0x48, 0x03, 0x02]
    );
    assert!(ignored(link.on_host_report(&subcommand(0x99, &[]))));
}

#[test]
fn spi_reads_are_answered_or_refused() {
    let mut link = SlotLink::new(0);
    let good = reply(link.on_host_report(&subcommand(0x10, &[0x26, 0x80, 0, 0, 2])));
    assert_eq!(&good[13..22], &[0x90, 0x10, 0x26, 0x80, 0, 0, 2, 0xb2, 0xa1]);
    let bad = reply(link.on_host_report(&subcommand(0x10, &[0x26, 0x70, 0, 0, 2])));
    assert_eq!(&bad[13..16], &[0x00, 0x10, 0x00]);
    let short = reply(link.on_host_report(&subcommand(0x10, &[])));
    assert_eq!(&short[13..15], &[0x00, 0x10]);
}

#[test]
fn rumble_reports_become_rumble() {
    let mut link = SlotLink::new(3);
    let full = ((1u32 << 30) | (1 << 25)).to_le_bytes();
    let mut report = vec![0x10, 0x00];
    report.extend_from_slice(&full);
    report.extend_from_slice(&[0, 0, 0, 0]);
    match link.on_host_report(&report) {
        HostAction::Rumble(rumble) => assert_eq!(
            rumble,
            Rumble {
                slot: 3,
                left: 255,
                right: 0
            }
        ),
        _ => panic!("no rumble"),
    }
    assert!(ignored(link.on_host_report(&report[..9])));
}

#[test]
fn unknown_reports_change_nothing() {
    let mut link = SlotLink::new(0);
    for report in [
        &[][..],
        &[0x80][..],
        &[0x11, 0, 1, 2, 3, 4, 5, 6, 7, 8, 9][..],
        &[0x82, 0x04][..],
        &[0x01, 0, 0, 0, 0, 0, 0, 0, 0, 0][..],
    ] {
        assert!(ignored(link.on_host_report(report)));
        assert_eq!(link, SlotLink::new(0));
    }
}
