use raspberry_switch_controller::bridge::{poll_slots, PadReading, PowerInfo};
use raspberry_switch_controller::engine::{Engine, PadEvent};
use raspberry_switch_controller::mapping::PadState;
use raspberry_switch_controller::models::{Stick, WebState};
use raspberry_switch_controller::motors::RumbleJob;
use raspberry_switch_controller::slot::{HostAction, SlotLink};

fn joined(id: usize) -> PadEvent {
    PadEvent::Connected {
        id,
        name: format!("pad {}", id),
    }
}

fn reading(pad: PadState, power: PowerInfo) -> PadReading {
    PadReading {
        pad,
        power,
        name: "pad".to_string(),
    }
}

fn open_link(slot: usize) -> SlotLink {
    let mut link = SlotLink::new(slot);
    link.on_host_report(&[0x80, 0x04]);
    link
}

#[test]
fn a_press_reaches_the_host() {
    let mut ws = WebState::default();
    let mut engine = Engine::new(4);
    engine.on_pad_event(&mut ws, &joined(1));
    engine.on_pad_event(&mut ws, &joined(2));
    let held = PadState {
        south: true,
        start: true,
        dpad_left: true,
        left_z_pulled: true,
        left_stick: Stick::new(-3, 4095),
        ..PadState::default()
    };
    let readings = vec![
        reading(PadState::default(), PowerInfo::Wired),
        reading(held, PowerInfo::Charging(55)),
    ];
    let inputs = poll_slots(&mut ws, 4, &readings);
    let report = open_link(1).tick(Some(inputs[1])).unwrap();
    assert_eq!(
        &report[..13],
        &[0x30, 0x01, 0x71, 0x04, 0x02, 0x88, 0x00, 0xf0, 0xff, 0x00, 0x08, 0x80, 0x09]
    );
    assert!(report[13..].iter().all(|b| *b == 0));
    let idle = open_link(3).tick(Some(inputs[3])).unwrap();
    assert_eq!(
        &idle[..13],
        &[0x30, 0x01, 0x81, 0x00, 0x00, 0x00, 0x00, 0x08, 0x80, 0x00, 0x08, 0x80, 0x09]
    );
}

#[test]
fn a_pad_that_leaves_leaves_an_idle_slot() {
    let mut ws = WebState::default();
    let mut engine = Engine::new(2);
    engine.on_pad_event(&mut ws, &joined(1));
    engine.on_pad_event(&mut ws, &joined(2));
    let held = PadState {
        east: true,
        ..PadState::default()
    };
    let both = vec![
        reading(held, PowerInfo::Wired),
        reading(held, PowerInfo::Charged),
    ];
    let before = poll_slots(&mut ws, 2, &both);
    engine.on_pad_event(
        &mut ws,
        &PadEvent::Disconnected {
            id: 1,
            name: "pad 1".to_string(),
        },
    );
    let after = poll_slots(&mut ws, 2, &vec![reading(held, PowerInfo::Charged)]);
    assert!(before[0].a && !after[0].a);
    assert_eq!(after[0].battery, 0x81);
    assert_eq!(after[1], before[1]);
}

#[test]
fn rumble_reaches_the_pad() {
    let mut ws = WebState::default();
    let mut engine = Engine::new(4);
    engine.on_pad_event(&mut ws, &joined(7));
    let mut link = open_link(0);
    let full = ((1u32 << 30) | (1 << 25)).to_le_bytes();
    let half = ((1u32 << 30) | (3 << 25)).to_le_bytes();
    let mut report = vec![0x10, 0x00];
    report.extend_from_slice(&full);
    report.extend_from_slice(&half);
    let rumble = match link.on_host_report(&report) {
        HostAction::Rumble(rumble) => rumble,
        _ => panic!("no rumble"),
    };
    assert_eq!(
        engine.begin_rumble(&ws, &rumble),
        Some(RumbleJob {
            id: 7,
            strong_mag: 65535,
            weak_mag: 127 * 257
        })
    );
}
