use raspberry_switch_controller::bridge::connect;
use raspberry_switch_controller::models::{Command, StickPercent, WebState, XboxInput};
use raspberry_switch_controller::page::{overview, pad_card, pad_event, pad_readout, Cell};
use raspberry_switch_controller::web::{
    battery_label, identify_command, remap_command, static_asset, vibrate_command, Asset,
    SseClient, SseUpdate,
};

#[test]
fn forms_become_commands() {
    assert_eq!(
        identify_command(Some("12")),
        Some(Command::Identify { controller_id: 12 })
    );
    assert_eq!(identify_command(Some("x")), None);
    assert_eq!(identify_command(Some("-1")), None);
    assert_eq!(identify_command(None), None);
    assert_eq!(
        remap_command(Some("1"), Some("+3")),
        Some(Command::Remap {
            controller_id: 1,
            new_slot: 3
        })
    );
    assert_eq!(remap_command(Some("1"), None), None);
    assert_eq!(remap_command(None, Some("1")), None);
    assert_eq!(remap_command(Some("1"), Some("")), None);
}

#[test]
fn vibration_forms_are_limited() {
    for (text, ms) in [("0", 1), ("1", 1), ("500", 500), ("5000", 5000), ("60000", 5000)] {
        assert_eq!(
            vibrate_command(Some("2"), Some(text)),
            Some(Command::Vibrate {
                controller_id: 2,
                duration_ms: ms
            })
        );
    }
    assert_eq!(vibrate_command(Some("2"), Some("long")), None);
    assert_eq!(vibrate_command(Some("2"), None), None);
    assert_eq!(vibrate_command(None, Some("5")), None);
}

#[test]
fn battery_labels() {
    assert_eq!(battery_label(0x81), "wired");
    assert_eq!(battery_label(0x91), "wired");
    assert_eq!(battery_label(0x80), "4/4");
    assert_eq!(battery_label(0x50), "2/4 charging");
    assert_eq!(battery_label(0), "0/4");
}

#[test]
fn assets_are_found_by_name() {
    assert_eq!(static_asset("htmx.min.js"), Some(Asset::Htmx));
    assert_eq!(static_asset("htmx-ext-sse.min.js"), Some(Asset::HtmxSse));
    assert_eq!(static_asset("alpine.min.js"), Some(Asset::Alpine));
    assert_eq!(static_asset("style.css"), Some(Asset::Style));
    assert_eq!(static_asset("style.css.map"), None);
    assert_eq!(static_asset(""), None);
    for asset in [Asset::Htmx, Asset::HtmxSse, Asset::Alpine, Asset::Style] {
        assert_eq!(static_asset(asset.name()), Some(asset));
    }
    assert_eq!(Asset::Style.mime(), "text/css");
    assert_eq!(Asset::Alpine.mime(), "text/javascript");
}

fn texts(list: &[&str]) -> Vec<String> {
    list.iter().map(|s| s.to_string()).collect()
}

fn readouts(update: SseUpdate) -> Vec<(usize, String)> {
    match update {
        SseUpdate::Readouts(list) => list,
        SseUpdate::Pads => panic!("all cards"),
    }
}

#[test]
fn a_page_gets_all_cards_then_changes() {
    let mut client = SseClient::new();
    let first = client.step(vec![1, 2], texts(&["a", "b"]));
    assert!(matches!(first, SseUpdate::Pads));
    assert!(readouts(client.step(vec![1, 2], texts(&["a", "b"]))).is_empty());
    assert_eq!(
        readouts(client.step(vec![1, 2], texts(&["a", "c"]))),
        vec![(2, "c".to_string())]
    );
    assert_eq!(
        readouts(client.step(vec![1, 2], texts(&["x", "y"]))),
        vec![(1, "x".to_string()), (2, "y".to_string())]
    );
    let gone = client.step(vec![2], texts(&["y"]));
    assert!(matches!(gone, SseUpdate::Pads));
    let back = client.step(vec![2, 1], texts(&["y", "x"]));
    assert!(matches!(back, SseUpdate::Pads));
    let order = client.step(vec![1, 2], texts(&["x", "y"]));
    assert!(matches!(order, SseUpdate::Pads));
}

#[test]
fn an_empty_page_is_sent_once() {
    let mut client = SseClient::new();
    assert!(matches!(client.step(vec![], vec![]), SseUpdate::Pads));
    assert!(readouts(client.step(vec![], vec![])).is_empty());
}

#[test]
fn repeated_cards_are_sent_once() {
    let mut client = SseClient::new();
    client.step(vec![5, 5], texts(&["old", "old"]));
    assert_eq!(
        readouts(client.step(vec![5, 5], texts(&["one", "two"]))),
        vec![(5, "two".to_string())]
    );
}

fn page_state() -> WebState {
    let mut ws = WebState::default();
    connect(&mut ws, 3, 6, "Six");
    connect(&mut ws, 3, 7, "Seven");
    ws.controllers[1].slot = Some(2);
    ws.controllers[1].battery = 0x60;
    ws
}

fn row(cells: &[Cell]) -> Vec<(String, &'static str)> {
    cells.iter().map(|c| (c.class.clone(), c.label)).collect()
}

#[test]
fn the_overview_lists_controllers_and_slots() {
    let ws = page_state();
    let page = overview(&ws, 3);
    assert_eq!(page.controllers.len(), 2);
    assert_eq!(page.controllers[0].name, "Six");
    assert_eq!(page.controllers[0].battery, "0/4");
    assert_eq!(page.controllers[0].slot.as_deref(), Some("Slot 1"));
    assert_eq!(page.controllers[1].battery, "3/4");
    assert_eq!(page.controllers[1].slot.as_deref(), Some("Slot 3"));
    assert_eq!(page.slots.len(), 3);
    assert_eq!(page.slots[0].label, "Slot 1: ");
    assert_eq!(page.slots[0].holder.as_deref(), Some("Six"));
    assert_eq!(page.slots[1].holder, None);
    assert_eq!(page.slots[2].holder.as_deref(), Some("Seven"));
    assert_eq!(page.status, "Seven connected (slot 2)");
}

#[test]
fn a_card_offers_every_slot() {
    let ws = page_state();
    let card = pad_card(&ws.controllers[1], 3);
    assert_eq!(card.controller_id, 7);
    assert_eq!(card.card_id, "card-7");
    assert_eq!(card.event, "pad-7");
    assert_eq!(pad_event(7), "pad-7");
    let labels: Vec<(usize, &str, bool)> = card
        .options
        .iter()
        .map(|o| (o.slot, o.label.as_str(), o.selected))
        .collect();
    assert_eq!(
        labels,
        vec![(0, "Slot 1", false), (1, "Slot 2", false), (2, "Slot 3", true)]
    );
    assert_eq!(card.readout.name, "Seven");
}

#[test]
fn a_readout_lights_what_is_pressed() {
    let mut ws = page_state();
    let c = &mut ws.controllers[0];
    c.is_vibrating = true;
    c.input = Some(XboxInput {
        a: true,
        rb: true,
        xbox: true,
        dpad_left: true,
        lt: true,
        lt_value: 35,
        rt_value: 300,
        left_stick: StickPercent { x: 10, y: 80 },
        right_stick: StickPercent { x: 101, y: 200 },
        right_stick_press: true,
        ..XboxInput::default()
    });
    let readout = pad_readout(c);
    assert!(readout.vibrating);
    assert_eq!(readout.slot.as_deref(), Some("Slot 1"));
    let own = |s: &str, l: &'static str| (s.to_string(), l);
    assert_eq!(
        row(&readout.face),
        vec![
            own("pad-btn x ", "X"),
            own("pad-btn y ", "Y"),
            own("pad-btn b ", "B"),
            own("pad-btn a lit", "A")
        ]
    );
    assert_eq!(
        row(&readout.bumpers),
        vec![own("bumper ", "LB"), own("bumper lit", "RB")]
    );
    assert_eq!(
        row(&readout.center),
        vec![
            own("center-btn ", "View"),
            own("xbox-btn lit", "X"),
            own("center-btn ", "Menu")
        ]
    );
    assert_eq!(
        row(&readout.dpad),
        vec![
            own("dpad-btn dpad-up ", "▲"),
            own("dpad-btn dpad-left lit", "◀"),
            own("dpad-btn dpad-right ", "▶"),
            own("dpad-btn dpad-down ", "▼")
        ]
    );
    assert_eq!(readout.left_stick.label, "L");
    assert_eq!(readout.left_stick.note, "");
    assert_eq!(readout.left_stick.class, "dot");
    assert_eq!(readout.left_stick.style, "left:10%;top:20%");
    assert_eq!(readout.right_stick.note, " (pressed)");
    assert_eq!(readout.right_stick.class, "dot lit");
    assert_eq!(readout.right_stick.style, "left:100%;top:0%");
    assert_eq!(readout.left_trigger.class, "lit");
    assert_eq!(readout.left_trigger.style, "height:35%");
    assert_eq!(readout.right_trigger.label, "RT");
    assert_eq!(readout.right_trigger.class, "");
    assert_eq!(readout.right_trigger.style, "height:100%");
}

#[test]
fn a_pad_without_input_rests() {
    let mut ws = page_state();
    ws.controllers[0].slot = None;
    let readout = pad_readout(&ws.controllers[0]);
    assert_eq!(readout.slot, None);
    assert!(!readout.vibrating);
    assert_eq!(readout.left_stick.style, "left:50%;top:50%");
    assert_eq!(readout.left_trigger.style, "height:0%");
    assert!(readout.face.iter().all(|c| !c.class.ends_with("lit")));
}
