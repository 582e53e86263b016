use raspberry_switch_controller::bridge::{
    attach, battery_byte, connect, disconnect, lowest_free_slot, percentage_to_level, poll_slots,
    slot_occupied, Attach, PadReading, PowerInfo,
};
use raspberry_switch_controller::mapping::{Mapping, PadState};
use raspberry_switch_controller::models::{
    Stick, StickPercent, SwitchInput, WebState, XboxInput,
};

#[test]
fn test_percentage_to_level() {
    assert_eq!(percentage_to_level(0), 0);
    assert_eq!(percentage_to_level(9), 0);
    assert_eq!(percentage_to_level(10), 1);
    assert_eq!(percentage_to_level(29), 1);
    assert_eq!(percentage_to_level(30), 2);
    assert_eq!(percentage_to_level(49), 2);
    assert_eq!(percentage_to_level(50), 3);
    assert_eq!(percentage_to_level(69), 3);
    assert_eq!(percentage_to_level(70), 4);
    assert_eq!(percentage_to_level(100), 4);
}

#[test]
fn test_battery_byte() {
    assert_eq!(battery_byte(PowerInfo::Discharging(80)), 0x81); // full + host
    assert_eq!(battery_byte(PowerInfo::Discharging(40)), 0x41); // 2/4 + host
    assert_eq!(battery_byte(PowerInfo::Charging(80)), 0x91); // full charging + host
    assert_eq!(battery_byte(PowerInfo::Charged), 0x91);
    assert_eq!(battery_byte(PowerInfo::Wired), 0x81);
    assert_eq!(battery_byte(PowerInfo::Unknown), 0x81);
}

#[test]
fn battery_byte_is_always_host_powered() {
    for pct in 0..=100 {
        assert_eq!(battery_byte(PowerInfo::Discharging(pct)) & 0x11, 0x01);
        assert_eq!(battery_byte(PowerInfo::Charging(pct)) & 0x11, 0x11);
    }
    assert_eq!(battery_byte(PowerInfo::Discharging(0)), 0x01);
    assert_eq!(battery_byte(PowerInfo::Charging(10)), 0x31);
}

#[test]
fn pads_take_the_lowest_free_slot() {
    let mut ws = WebState::default();
    assert_eq!(lowest_free_slot(&ws.controllers, 2), Some(0));
    assert_eq!(lowest_free_slot(&ws.controllers, 0), None);
    assert_eq!(connect(&mut ws, 2, 11, "First"), Attach::Slot(0));
    assert_eq!(ws.status, "First connected (slot 1)");
    assert_eq!(connect(&mut ws, 2, 11, "First"), Attach::Known);
    assert_eq!(connect(&mut ws, 2, 12, "Second"), Attach::Slot(1));
    assert_eq!(ws.status, "Second connected (slot 2)");
    assert_eq!(connect(&mut ws, 2, 13, "Third"), Attach::NoFreeSlot);
    assert_eq!(ws.status, "Second connected (slot 2)");
    assert_eq!(ws.controllers.len(), 2);
    assert!(slot_occupied(&ws.controllers, 1));
    assert!(!slot_occupied(&ws.controllers, 2));

    assert_eq!(disconnect(&mut ws, 11, "First"), Some(Some(0)));
    assert_eq!(ws.status, "First disconnected");
    assert_eq!(disconnect(&mut ws, 11, "First"), None);
    assert_eq!(connect(&mut ws, 2, 13, "Third"), Attach::Slot(0));
    assert_eq!(ws.controllers[0].id, 12);
    assert_eq!(ws.controllers[1].id, 13);
    assert_eq!(ws.controllers[1].name, "Third");
}

#[test]
fn attaching_says_nothing() {
    let mut ws = WebState::default();
    assert_eq!(attach(&mut ws, 1, 5, "Pad"), Attach::Slot(0));
    assert_eq!(attach(&mut ws, 1, 6, "Other"), Attach::NoFreeSlot);
    assert_eq!(attach(&mut ws, 1, 5, "Pad"), Attach::Known);
    assert_eq!(ws.status, "");
    let pad = &ws.controllers[0];
    assert_eq!((pad.id, pad.slot, pad.battery), (5, Some(0), 0));
    assert!(!pad.is_vibrating && pad.input.is_none());
}

fn reading(pad: PadState, power: PowerInfo, name: &str) -> PadReading {
    PadReading {
        pad,
        power,
        name: name.to_string(),
    }
}

#[test]
fn polling_feeds_each_slot() {
    let mut ws = WebState::default();
    connect(&mut ws, 3, 1, "one");
    connect(&mut ws, 3, 2, "two");
    disconnect(&mut ws, 1, "one");
    let pad = PadState {
        south: true,
        left_z_pulled: true,
        left_stick: Stick::new(100, 4000),
        left_percent: StickPercent { x: 2, y: 97 },
        ..PadState::default()
    };
    let readings = vec![reading(pad, PowerInfo::Discharging(40), "two again")];
    let inputs = poll_slots(&mut ws, 3, &readings);
    assert_eq!(inputs.len(), 3);
    assert_eq!(inputs[0], SwitchInput::neutral_input());
    assert_eq!(inputs[2], SwitchInput::neutral_input());
    assert!(inputs[1].b && !inputs[1].a && inputs[1].zl && !inputs[1].zr);
    assert_eq!(inputs[1].left_stick, Stick::new(100, 4000));
    assert_eq!(inputs[1].battery, 0x41);
    assert_eq!(ws.controllers[0].battery, 0x41);
    assert_eq!(ws.controllers[0].name, "two again");
    let shown = ws.controllers[0].input.unwrap();
    assert!(shown.a && !shown.b && !shown.lt);
    assert_eq!(shown.left_stick, StickPercent { x: 2, y: 97 });
}

#[test]
fn unassigned_controllers_are_not_polled() {
    let mut ws = WebState::default();
    connect(&mut ws, 1, 1, "one");
    ws.controllers[0].slot = None;
    let readings = vec![reading(PadState::default(), PowerInfo::Charged, "new name")];
    let inputs = poll_slots(&mut ws, 1, &readings);
    assert_eq!(inputs, vec![SwitchInput::neutral_input()]);
    assert_eq!(ws.controllers[0].name, "one");
    assert_eq!(ws.controllers[0].input, None);
}

#[test]
fn buttons_keep_their_place() {
    let mapping = Mapping::new();
    let rest = PadState::default();
    assert_eq!(mapping.poll(&rest), SwitchInput::default());
    assert_eq!(XboxInput::from_gamepad(&rest), XboxInput::default());
    let east = mapping.poll(&PadState { east: true, ..rest });
    assert!(east.a && !east.b);
    let west = mapping.poll(&PadState { west: true, ..rest });
    assert!(west.y && !west.x);
    let north = mapping.poll(&PadState { north: true, ..rest });
    assert!(north.x && !north.y);
    let start = mapping.poll(&PadState { start: true, ..rest });
    assert!(start.plus && !start.minus);
    let select = mapping.poll(&PadState { select: true, ..rest });
    assert!(select.minus && !select.plus);
    let mode = mapping.poll(&PadState { mode: true, ..rest });
    assert!(mode.home && !mode.capture);
    let button = mapping.poll(&PadState { right_trigger2: true, ..rest });
    let axis = mapping.poll(&PadState { right_z_pulled: true, ..rest });
    assert!(button.zr && axis.zr && !axis.r);
    let bumper = mapping.poll(&PadState { left_trigger: true, ..rest });
    assert!(bumper.l && !bumper.zl);
    let thumb = mapping.poll(&PadState { right_thumb: true, ..rest });
    assert!(thumb.right_stick_press && !thumb.left_stick_press);
    let pad = XboxInput::from_gamepad(&PadState {
        left_pull: 40,
        left_trigger2: true,
        dpad_left: true,
        ..rest
    });
    assert_eq!((pad.lt, pad.lt_value, pad.dpad_left), (true, 40, true));
}
