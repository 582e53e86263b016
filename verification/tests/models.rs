use raspberry_switch_controller::models::{
    apply_remap, apply_remap_entries, AppState, ControllerState, RemapOutcome, SlotEntry, Stick,
    SwitchInput, WebState, XboxInput, DEFAULT_SLOTS, MAX_SLOTS,
};

fn entries(
    id_a: usize,
    slot_a: Option<usize>,
    id_b: usize,
    slot_b: Option<usize>,
) -> Vec<SlotEntry> {
    vec![
        SlotEntry {
            id: id_a,
            slot: slot_a,
        },
        SlotEntry {
            id: id_b,
            slot: slot_b,
        },
    ]
}

#[test]
fn test_apply_remap_entries_move() {
    let mut e = entries(10, Some(0), 20, Some(1));
    assert_eq!(apply_remap_entries(&mut e, 10, 2, 4), RemapOutcome::Moved);
    assert_eq!(e[0].slot, Some(2));
    assert_eq!(e[1].slot, Some(1));
}

#[test]
fn test_apply_remap_entries_swap() {
    let mut e = entries(10, Some(0), 20, Some(1));
    assert_eq!(
        apply_remap_entries(&mut e, 10, 1, 4),
        RemapOutcome::Swapped {
            old_slot: 0,
            new_slot: 1
        }
    );
    assert_eq!(e[0].slot, Some(1));
    assert_eq!(e[1].slot, Some(0));
}

#[test]
fn test_apply_remap_entries_invalid_slot() {
    let mut e = entries(10, Some(0), 20, Some(1));
    assert_eq!(
        apply_remap_entries(&mut e, 10, 4, 4),
        RemapOutcome::InvalidSlot
    );
}

#[test]
fn test_apply_remap_entries_not_found() {
    let mut e = entries(10, Some(0), 20, Some(1));
    assert_eq!(
        apply_remap_entries(&mut e, 999, 1, 4),
        RemapOutcome::NotFound
    );
}

#[test]
fn test_apply_remap_entries_same_slot() {
    let mut e = entries(10, Some(0), 20, Some(1));
    assert_eq!(
        apply_remap_entries(&mut e, 10, 0, 4),
        RemapOutcome::SameSlot
    );
    assert_eq!(e[0].slot, Some(0));
    assert_eq!(e[1].slot, Some(1));
}

#[test]
fn unassigned_controller_is_not_remapped() {
    let mut e = entries(10, None, 20, Some(1));
    assert_eq!(apply_remap_entries(&mut e, 10, 0, 4), RemapOutcome::NotFound);
    assert_eq!(e, entries(10, None, 20, Some(1)));
}

#[test]
fn remap_is_undone_by_remapping_back() {
    let before = entries(10, Some(0), 20, Some(3));
    let swapped_back = RemapOutcome::Swapped {
        old_slot: 3,
        new_slot: 0,
    };
    for (target, back) in [
        (0, RemapOutcome::SameSlot),
        (1, RemapOutcome::Moved),
        (3, swapped_back),
        (4, RemapOutcome::SameSlot),
    ] {
        let mut e = before.clone();
        apply_remap_entries(&mut e, 10, target, 4);
        assert_eq!(apply_remap_entries(&mut e, 10, 0, 4), back);
        assert_eq!(e, before);
    }
}

#[test]
fn remap_over_controllers_moves_slots_only() {
    let mut controllers = vec![
        ControllerState {
            id: 7,
            slot: Some(0),
            name: "seven".to_string(),
            battery: 0x81,
            is_vibrating: true,
            input: None,
        },
        ControllerState {
            id: 8,
            slot: Some(1),
            name: "eight".to_string(),
            battery: 0x41,
            is_vibrating: false,
            input: Some(XboxInput::default()),
        },
    ];
    let outcome = apply_remap(&mut controllers, 8, 0, 2);
    assert_eq!(
        outcome,
        RemapOutcome::Swapped {
            old_slot: 1,
            new_slot: 0
        }
    );
    assert_eq!(controllers[0].slot, Some(1));
    assert_eq!(controllers[1].slot, Some(0));
    assert_eq!(controllers[0].name, "seven");
    assert!(controllers[0].is_vibrating);
    assert_eq!(controllers[1].battery, 0x41);
    assert_eq!(controllers[1].input, Some(XboxInput::default()));
}

#[test]
fn neutral_input_rests_with_full_battery() {
    let input = SwitchInput::neutral_input();
    assert_eq!(input.battery, 0x81);
    assert_eq!(input.left_stick, Stick::new(2048, 2048));
    assert!(!input.a && !input.home && !input.zl);
    assert_eq!(SwitchInput::default().battery, 0);
    assert_eq!(Stick::default(), Stick::new(2048, 2048));
}

#[test]
fn defaults_and_limits() {
    assert_eq!(DEFAULT_SLOTS, 4);
    assert_eq!(MAX_SLOTS, 8);
    let state = WebState::default();
    assert!(state.controllers.is_empty());
    assert_eq!(state.status, "");
    assert!(AppState::Exiting.is_exiting());
    assert!(!AppState::Connected.is_exiting());
    let pad = XboxInput::default();
    assert_eq!((pad.left_stick.x, pad.left_stick.y), (50, 50));
    assert_eq!((pad.lt_value, pad.rt), (0, false));
}
