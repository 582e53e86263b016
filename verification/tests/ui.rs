use raspberry_switch_controller::ui::{
    handle_key_event, Key, UiCommand, UiEvent, UiState, CONTROLLERS_TITLE, SLOTS_TITLE, TITLE,
};

fn with_pads() -> UiState {
    let mut ui = UiState::new(2);
    ui.handle_controller_connected(3, "Alpha".to_string());
    ui.handle_controller_connected(4, "Beta".to_string());
    ui
}

#[test]
fn a_new_page_is_blank() {
    let ui = UiState::new(3);
    assert!(ui.controllers.is_empty());
    assert_eq!(ui.slot_assignments.len(), 3);
    assert!(ui.slot_assignments.iter().all(|s| s.is_none()));
    assert_eq!(ui.status_message, "Ready");
    assert!(!ui.should_quit && !ui.show_remap_dialog);
    assert!(ui.selected_controller().is_none());
}

#[test]
fn controllers_come_and_go() {
    let mut ui = with_pads();
    assert_eq!(ui.status_message, "Controller connected");
    ui.status_message = "quiet".to_string();
    ui.handle_controller_connected(3, "Again".to_string());
    assert_eq!(ui.controllers.len(), 2);
    assert_eq!(ui.status_message, "quiet");
    ui.selected_index = 1;
    ui.handle_controller_disconnected(9);
    assert_eq!(ui.status_message, "quiet");
    ui.handle_controller_disconnected(3);
    assert_eq!(ui.status_message, "Controller disconnected");
    assert_eq!(ui.selected_index, 0);
    assert_eq!(ui.selected_controller().unwrap().id, 4);
    ui.handle_controller_disconnected(4);
    assert!(ui.selected_controller().is_none());
    assert_eq!(ui.selected_index, 0);
}

#[test]
fn a_leaving_controller_clears_its_slot() {
    let mut ui = with_pads();
    ui.handle_slot_updated(1, Some(3), Some("Alpha".to_string()));
    ui.controllers[0].slot = Some(1);
    ui.handle_controller_disconnected(3);
    assert!(ui.slot_assignments[1].is_none());
}

#[test]
fn slots_are_updated() {
    let mut ui = UiState::new(2);
    ui.apply_event(UiEvent::SlotUpdated {
        slot: 1,
        controller_id: Some(8),
        controller_name: None,
    });
    let info = ui.slot_assignments[1].as_ref().unwrap();
    assert_eq!((info.id, info.name.as_str(), info.slot), (8, "", Some(1)));
    ui.apply_event(UiEvent::SlotUpdated {
        slot: 1,
        controller_id: None,
        controller_name: Some("x".to_string()),
    });
    assert!(ui.slot_assignments[1].is_none());
    ui.apply_event(UiEvent::SlotUpdated {
        slot: 2,
        controller_id: Some(8),
        controller_name: None,
    });
    assert!(ui.slot_assignments.iter().all(|s| s.is_none()));
}

#[test]
fn events_reach_the_page() {
    let mut ui = UiState::new(1);
    ui.apply_event(UiEvent::ControllerConnected {
        id: 1,
        name: "Pad".to_string(),
    });
    assert_eq!(ui.controllers[0].name, "Pad");
    ui.controllers[0].is_vibrating = true;
    ui.apply_event(UiEvent::VibrationComplete { id: 2 });
    assert!(ui.controllers[0].is_vibrating);
    ui.apply_event(UiEvent::VibrationComplete { id: 1 });
    assert!(!ui.controllers[0].is_vibrating);
    ui.apply_event(UiEvent::ControllerDisconnected { id: 1 });
    assert!(ui.controllers.is_empty());
}

#[test]
fn keys_move_the_selection() {
    let mut ui = with_pads();
    assert_eq!(handle_key_event(Key::Up, &mut ui, 2), None);
    assert_eq!(ui.selected_index, 0);
    handle_key_event(Key::Char('j'), &mut ui, 2);
    assert_eq!(ui.selected_index, 1);
    handle_key_event(Key::Down, &mut ui, 2);
    assert_eq!(ui.selected_index, 1);
    handle_key_event(Key::Char('k'), &mut ui, 2);
    assert_eq!(ui.selected_index, 0);
    ui.selected_index = 7;
    ui.clamp_selection();
    assert_eq!(ui.selected_index, 1);
    let mut empty = UiState::new(1);
    empty.selected_index = 7;
    empty.clamp_selection();
    assert_eq!(empty.selected_index, 0);
}

#[test]
fn quitting() {
    for key in [Key::Char('q'), Key::Esc] {
        let mut ui = with_pads();
        assert_eq!(handle_key_event(key, &mut ui, 2), None);
        assert!(ui.should_quit);
    }
    let mut ui = with_pads();
    handle_key_event(Key::Char('r'), &mut ui, 2);
    handle_key_event(Key::Char('q'), &mut ui, 2);
    handle_key_event(Key::Esc, &mut ui, 2);
    assert!(!ui.should_quit);
    assert!(!ui.show_remap_dialog);
    assert_eq!(ui.status_message, "Remap cancelled");
}

#[test]
fn identifying_a_controller() {
    let mut ui = with_pads();
    handle_key_event(Key::Down, &mut ui, 2);
    assert_eq!(
        handle_key_event(Key::Char('V'), &mut ui, 2),
        Some(UiCommand::Identify { controller_id: 4 })
    );
    assert_eq!(ui.status_message, "Vibrating Beta");
    assert!(ui.controllers[1].is_vibrating && !ui.controllers[0].is_vibrating);
    let mut empty = UiState::new(2);
    assert_eq!(handle_key_event(Key::Char('v'), &mut empty, 2), None);
    assert_eq!(handle_key_event(Key::Char('r'), &mut empty, 2), None);
    assert!(!empty.show_remap_dialog);
    assert_eq!(handle_key_event(Key::Other, &mut empty, 2), None);
    assert_eq!(empty.status_message, "Ready");
}

#[test]
fn remapping_a_controller() {
    let mut ui = with_pads();
    handle_key_event(Key::Char('R'), &mut ui, 2);
    assert!(ui.show_remap_dialog);
    assert_eq!(
        ui.status_message,
        "Select slot (↑/↓, Enter to confirm, Esc to cancel)"
    );
    handle_key_event(Key::Up, &mut ui, 2);
    handle_key_event(Key::Up, &mut ui, 2);
    handle_key_event(Key::Up, &mut ui, 2);
    assert_eq!(ui.selected_slot_for_remap, 3);
    handle_key_event(Key::Down, &mut ui, 2);
    assert_eq!(ui.selected_slot_for_remap, 1);
    assert_eq!(
        handle_key_event(Key::Enter, &mut ui, 2),
        Some(UiCommand::Remap {
            controller_id: 3,
            new_slot: 1
        })
    );
    assert_eq!(ui.status_message, "Remapping Alpha to slot 2");
    assert!(!ui.show_remap_dialog);
}

#[test]
fn confirming_without_a_controller() {
    let mut ui = with_pads();
    handle_key_event(Key::Char('r'), &mut ui, 2);
    handle_key_event(Key::Down, &mut ui, 2);
    assert_eq!(ui.selected_slot_for_remap, 0);
    ui.handle_controller_disconnected(3);
    ui.handle_controller_disconnected(4);
    assert_eq!(handle_key_event(Key::Enter, &mut ui, 2), None);
    assert!(!ui.show_remap_dialog);
    assert_eq!(ui.status_message, "Controller disconnected");
}

#[test]
fn the_screen_shows_the_page() {
    let mut ui = with_pads();
    ui.controllers[1].slot = Some(0);
    ui.controllers[1].is_vibrating = true;
    ui.handle_slot_updated(0, Some(4), Some("Beta".to_string()));
    let screen = ui.screen();
    assert_eq!(screen.controllers[0].name, "1. Alpha");
    assert_eq!(screen.controllers[0].slot, "→ (unassigned)");
    assert_eq!(screen.controllers[0].vibration, "");
    assert!(screen.controllers[0].selected && !screen.controllers[1].selected);
    assert_eq!(screen.controllers[1].name, "2. Beta");
    assert_eq!(screen.controllers[1].slot, "→ Slot 1");
    assert_eq!(screen.controllers[1].vibration, " [VIBRATING]");
    assert_eq!(screen.slots[0].text, "Slot 1: Beta (ID: GamepadId(4))");
    assert!(screen.slots[0].assigned);
    assert_eq!(screen.slots[1].text, "Slot 2: (Empty - idle)");
    assert!(!screen.slots[1].assigned);
    assert_eq!(
        screen.status,
        "[V] Vibrate | [R] Remap | [↑/↓] Navigate | [Q] Quit | Controller connected"
    );
    handle_key_event(Key::Char('r'), &mut ui, 2);
    handle_key_event(Key::Esc, &mut ui, 2);
    ui.show_remap_dialog = true;
    assert_eq!(
        ui.screen().status,
        "Remap Mode: Use ↑/↓ to select slot, Enter to confirm, Esc to cancel | Remap cancelled"
    );
    assert_eq!(
        TITLE,
        "Raspberry Switch Controller - Controller Mapping UI"
    );
    assert_eq!(CONTROLLERS_TITLE, "Connected Xbox Controllers");
    assert_eq!(SLOTS_TITLE, "Switch Pro Controller Slots");
}
