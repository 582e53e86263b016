use raspberry_switch_controller::config::{
    clamp_polling_rate, clamp_slots, tick_micros, DEFAULT_POLLING_RATE,
};
use raspberry_switch_controller::gadget::{
    pick_udc, GadgetManager, GadgetStep, DEVICE_MODE, REPORT_DESC_HEX,
};
use raspberry_switch_controller::hex::hex_to_bytes;
use raspberry_switch_controller::text::{labelled, numbered, parse_number};

const ROOT: &str = "/sys/kernel/config/usb_gadget/switchbridge";

fn show(step: &GadgetStep) -> String {
    match step {
        GadgetStep::MakeDir { path } => format!("mkdir {}", path),
        GadgetStep::WriteText { path, text } => format!("{} > {}", text, path),
        GadgetStep::WriteBytes { path, bytes } => format!("{} bytes > {}", bytes.len(), path),
        GadgetStep::Link { target, link } => format!("{} -> {}", link, target),
        GadgetStep::RemoveTree { path } => format!("rm -r {}", path),
        GadgetStep::RemoveDir { path } => format!("rmdir {}", path),
    }
}

#[test]
fn the_gadget_is_built_step_by_step() {
    let manager = GadgetManager::new();
    assert_eq!(manager.root, ROOT);
    let steps: Vec<String> = manager.setup_steps(2).iter().map(show).collect();
    let expected = [
        "mkdir R",
        "0x057e > R/idVendor",
        "0x2009 > R/idProduct",
        "0x0200 > R/bcdUSB",
        "0 > R/bDeviceClass",
        "mkdir R/strings/0x409",
        "000000000001 > R/strings/0x409/serialnumber",
        "Nintendo Co., Ltd. > R/strings/0x409/manufacturer",
        "Pro Controller > R/strings/0x409/product",
        "mkdir R/configs/c.1",
        "500 > R/configs/c.1/MaxPower",
        "0xa0 > R/configs/c.1/bmAttributes",
        "mkdir R/functions/hid.usb0",
        "0 > R/functions/hid.usb0/protocol",
        "0 > R/functions/hid.usb0/subclass",
        "64 > R/functions/hid.usb0/report_length",
        "203 bytes > R/functions/hid.usb0/report_desc",
        "R/configs/c.1/hid.usb0 -> R/functions/hid.usb0",
        "mkdir R/functions/hid.usb1",
        "0 > R/functions/hid.usb1/protocol",
        "0 > R/functions/hid.usb1/subclass",
        "64 > R/functions/hid.usb1/report_length",
        "203 bytes > R/functions/hid.usb1/report_desc",
        "R/configs/c.1/hid.usb1 -> R/functions/hid.usb1",
    ];
    let expected: Vec<String> = expected.iter().map(|s| s.replace("R", ROOT)).collect();
    assert_eq!(steps.len(), expected.len());
    for (step, line) in steps.iter().zip(expected.iter()) {
        assert_eq!(step, line);
    }
}

#[test]
fn more_slots_only_add_steps() {
    let manager = GadgetManager::new();
    let few: Vec<String> = manager.setup_steps(1).iter().map(show).collect();
    let many: Vec<String> = manager.setup_steps(8).iter().map(show).collect();
    assert_eq!(few.len(), 18);
    assert_eq!(many.len(), 60);
    assert_eq!(&many[..18], &few[..]);
    assert_eq!(manager.setup_steps(0).len(), 12);
}

#[test]
fn what_is_built_is_taken_down() {
    let manager = GadgetManager::new();
    let trees: Vec<String> = manager
        .teardown_steps()
        .iter()
        .filter_map(|step| match step {
            GadgetStep::RemoveTree { path } => Some(path.clone()),
            _ => None,
        })
        .collect();
    for step in manager.setup_steps(3) {
        let made = match step {
            GadgetStep::MakeDir { path } => path,
            GadgetStep::Link { link, .. } => link,
            _ => continue,
        };
        let removed = trees
            .iter()
            .any(|tree| made == *tree || made.starts_with(&format!("{}/", tree)));
        assert!(removed || made == ROOT, "{}", made);
    }
}

#[test]
fn the_gadget_is_bound_and_taken_down() {
    let manager = GadgetManager::new();
    assert_eq!(
        show(&manager.bind_step("fe980000.usb")),
        format!("fe980000.usb > {}/UDC", ROOT)
    );
    let steps: Vec<String> = manager.teardown_steps().iter().map(show).collect();
    assert_eq!(
        steps,
        vec![
            format!(" > {}/UDC", ROOT),
            format!("rm -r {}/configs/c.1", ROOT),
            format!("rm -r {}/functions", ROOT),
            format!("rm -r {}/strings", ROOT),
            format!("rmdir {}", ROOT),
        ]
    );
    assert_eq!(manager.hidg_path(0), "/dev/hidg0");
    assert_eq!(manager.hidg_path(12), "/dev/hidg12");
    assert_eq!(DEVICE_MODE, 0o666);
}

#[test]
fn the_first_controller_by_name_is_bound() {
    let names = |list: &[&str]| list.iter().map(|s| s.to_string()).collect::<Vec<String>>();
    assert_eq!(
        pick_udc(&names(&["fe98.usb", "", "dummy_udc.1", "dummy_udc.0"])),
        Some("dummy_udc.0".to_string())
    );
    assert_eq!(pick_udc(&names(&["ab", "a"])), Some("a".to_string()));
    assert_eq!(pick_udc(&names(&["", ""])), None);
    assert_eq!(pick_udc(&names(&[])), None);
}

#[test]
fn hex_is_read_by_pairs() {
    assert_eq!(hex_to_bytes("00ff7F"), vec![0x00, 0xff, 0x7f]);
    assert_eq!(hex_to_bytes(" \t0aB1\n"), vec![0x0a, 0xb1]);
    assert_eq!(hex_to_bytes("\u{3000}+9\u{a0}"), vec![0x09]);
    assert_eq!(hex_to_bytes("  "), Vec::<u8>::new());
    let desc = hex_to_bytes(REPORT_DESC_HEX);
    assert_eq!(desc.len(), 203);
    assert_eq!(&desc[..4], &[0x05, 0x01, 0x15, 0x00]);
    assert_eq!(desc[202], 0xc0);
}

#[test]
fn numbers_are_written_in_decimal() {
    assert_eq!(labelled("n", 0), "n0");
    assert_eq!(labelled("", u64::MAX), u64::MAX.to_string());
    assert_eq!(numbered("<", 1090, ">"), "<1090>");
    for n in [0u64, 7, 10, 99, 100, 4096, 1234567890] {
        assert_eq!(parse_number(&labelled("", n), u64::MAX), Some(n));
    }
}

#[test]
fn numbers_are_read_as_the_standard_library_does() {
    for s in [
        "0", "7", "007", "+5", "++5", "+", "", "-1", "-0", " 1", "1 ", "12a", "99999999999999999999",
        "18446744073709551615", "18446744073709551616", "١",
    ] {
        assert_eq!(parse_number(s, u64::MAX), s.parse::<u64>().ok(), "{}", s);
    }
    assert_eq!(parse_number("250", 255), Some(250));
    assert_eq!(parse_number("256", 255), None);
    assert_eq!(parse_number("3", 2), None);
}

#[test]
fn options_are_brought_into_range() {
    assert_eq!(clamp_slots(0), 1);
    assert_eq!(clamp_slots(4), 4);
    assert_eq!(clamp_slots(9), 8);
    assert_eq!(clamp_polling_rate(0), 20);
    assert_eq!(clamp_polling_rate(250), 250);
    assert_eq!(clamp_polling_rate(5000), 1000);
    assert_eq!(tick_micros(DEFAULT_POLLING_RATE), 4000);
    assert_eq!(tick_micros(1000), 1000);
    assert_eq!(tick_micros(0), 1_000_000);
    assert_eq!(tick_micros(60), 16666);
}
