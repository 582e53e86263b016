use raspberry_switch_controller::bridge::connect;
use raspberry_switch_controller::command::{
    begin_vibration, handle_command, set_vibrating, CommandOutcome, ManualVibration, VibrationStep,
};
use raspberry_switch_controller::models::{Command, RemapOutcome, WebState};

fn two_pads() -> WebState {
    let mut ws = WebState::default();
    connect(&mut ws, 4, 10, "ten");
    connect(&mut ws, 4, 20, "twenty");
    ws.status = "before".to_string();
    ws
}

fn vibration(outcome: CommandOutcome) -> ManualVibration {
    match outcome {
        CommandOutcome::Vibrate(v) => v,
        _ => panic!("no vibration"),
    }
}

#[test]
fn remap_commands_say_what_they_did() {
    let mut ws = two_pads();
    let swap = Command::Remap {
        controller_id: 10,
        new_slot: 1,
    };
    assert_eq!(
        handle_command(&mut ws, 4, swap),
        CommandOutcome::Remap(RemapOutcome::Swapped {
            old_slot: 0,
            new_slot: 1
        })
    );
    assert_eq!(ws.status, "Swapped slot 2 <-> slot 1");
    assert_eq!(ws.controllers[0].slot, Some(1));
    assert_eq!(ws.controllers[1].slot, Some(0));
    let shift = Command::Remap {
        controller_id: 20,
        new_slot: 3,
    };
    assert_eq!(
        handle_command(&mut ws, 4, shift),
        CommandOutcome::Remap(RemapOutcome::Moved)
    );
    assert_eq!(ws.status, "Remapped controller 20 to slot 4");
    assert_eq!(ws.controllers[1].slot, Some(3));
}

#[test]
fn remap_commands_that_do_nothing_say_nothing() {
    for (controller_id, new_slot, outcome) in [
        (10, 0, RemapOutcome::SameSlot),
        (10, 4, RemapOutcome::InvalidSlot),
        (99, 1, RemapOutcome::NotFound),
    ] {
        let mut ws = two_pads();
        let cmd = Command::Remap {
            controller_id,
            new_slot,
        };
        assert_eq!(
            handle_command(&mut ws, 4, cmd),
            CommandOutcome::Remap(outcome)
        );
        assert_eq!(ws.status, "before");
        assert_eq!(ws.controllers[0].slot, Some(0));
        assert_eq!(ws.controllers[1].slot, Some(1));
    }
}

#[test]
fn identify_is_two_short_pulses() {
    let mut ws = two_pads();
    let cmd = Command::Identify { controller_id: 20 };
    let v = vibration(handle_command(&mut ws, 4, cmd));
    assert_eq!(
        v,
        ManualVibration {
            id: 20,
            identify: true,
            duration_ms: 0
        }
    );
    assert_eq!(
        v.steps(),
        vec![
            VibrationStep::Play,
            VibrationStep::Wait(100),
            VibrationStep::Stop,
            VibrationStep::Wait(100),
            VibrationStep::Play,
            VibrationStep::Wait(100),
            VibrationStep::Stop,
        ]
    );
}

#[test]
fn vibration_is_capped() {
    let mut ws = two_pads();
    for (asked, given) in [(200, 200), (5000, 5000), (5001, 5000), (u64::MAX, 5000)] {
        let cmd = Command::Vibrate {
            controller_id: 10,
            duration_ms: asked,
        };
        let v = vibration(handle_command(&mut ws, 4, cmd));
        assert_eq!(
            v.steps(),
            vec![
                VibrationStep::Play,
                VibrationStep::Wait(given),
                VibrationStep::Stop
            ]
        );
    }
    assert_eq!(ws.status, "before");
}

#[test]
fn a_vibrating_pad_starts_no_second_vibration() {
    let mut ws = two_pads();
    let cmd = Command::Identify { controller_id: 10 };
    set_vibrating(&mut ws, 10, true);
    assert!(ws.controllers[0].is_vibrating && !ws.controllers[1].is_vibrating);
    assert_eq!(
        handle_command(&mut ws, 4, cmd),
        CommandOutcome::AlreadyVibrating
    );
    set_vibrating(&mut ws, 10, false);
    vibration(handle_command(&mut ws, 4, cmd));
    set_vibrating(&mut ws, 99, true);
    assert!(!ws.controllers[0].is_vibrating && !ws.controllers[1].is_vibrating);
    assert_eq!(
        handle_command(&mut ws, 4, Command::Identify { controller_id: 99 }),
        CommandOutcome::UnknownController
    );
}

#[test]
fn a_vibration_begins_only_with_an_effect() {
    let mut ws = two_pads();
    let v = ManualVibration {
        id: 20,
        identify: false,
        duration_ms: 7,
    };
    assert_eq!(begin_vibration(&mut ws, v, false), None);
    assert!(!ws.controllers[1].is_vibrating);
    let steps = begin_vibration(&mut ws, v, true).unwrap();
    assert_eq!(steps, v.steps());
    assert!(ws.controllers[1].is_vibrating && !ws.controllers[0].is_vibrating);
    set_vibrating(&mut ws, 20, false);
    assert!(!ws.controllers[1].is_vibrating);
    assert_eq!(ws.status, "before");
}
