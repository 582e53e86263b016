use raspberry_switch_controller::engine::{Engine, PadAction, PadEvent};
use raspberry_switch_controller::models::{Rumble, WebState};
use raspberry_switch_controller::motors::{Motor, MotorStep, RumbleJob};

fn joined(id: usize, name: &str) -> PadEvent {
    PadEvent::Connected {
        id,
        name: name.to_string(),
    }
}

fn left(id: usize, name: &str) -> PadEvent {
    PadEvent::Disconnected {
        id,
        name: name.to_string(),
    }
}

#[test]
fn pads_at_start_up_get_effects_even_without_a_slot() {
    let mut ws = WebState::default();
    let mut engine = Engine::new(1);
    assert_eq!(
        engine.start_pad(&mut ws, 1, "one"),
        PadAction::MakeEffects { id: 1 }
    );
    assert_eq!(
        engine.start_pad(&mut ws, 2, "two"),
        PadAction::MakeEffects { id: 2 }
    );
    assert_eq!(engine.start_pad(&mut ws, 1, "one"), PadAction::Nothing);
    assert_eq!(ws.controllers.len(), 1);
    assert_eq!(ws.status, "");
}

#[test]
fn pads_that_connect_get_effects_with_their_slot() {
    let mut ws = WebState::default();
    let mut engine = Engine::new(1);
    assert_eq!(
        engine.on_pad_event(&mut ws, &joined(1, "one")),
        PadAction::MakeEffects { id: 1 }
    );
    assert_eq!(ws.status, "one connected (slot 1)");
    assert_eq!(
        engine.on_pad_event(&mut ws, &joined(2, "two")),
        PadAction::Nothing
    );
    assert_eq!(
        engine.on_pad_event(&mut ws, &joined(1, "one")),
        PadAction::Nothing
    );
    engine.effects_made(1, true, false);
    assert_eq!(
        engine.on_pad_event(&mut ws, &PadEvent::Other),
        PadAction::Nothing
    );
    assert_eq!(
        engine.on_pad_event(&mut ws, &left(2, "two")),
        PadAction::Nothing
    );
    assert_eq!(
        engine.on_pad_event(&mut ws, &left(1, "one")),
        PadAction::DropEffects {
            id: 1,
            strong: true,
            weak: false
        }
    );
    assert_eq!(ws.status, "one disconnected");
    assert!(ws.controllers.is_empty());
    assert_eq!(engine.bank.pad(1), None);
}

#[test]
fn rumble_is_played_step_by_step() {
    let mut ws = WebState::default();
    let mut engine = Engine::new(2);
    engine.on_pad_event(&mut ws, &joined(9, "nine"));
    engine.effects_made(9, true, true);
    let rumble = Rumble {
        slot: 0,
        left: 2,
        right: 3,
    };
    let job = engine.begin_rumble(&ws, &rumble).unwrap();
    assert_eq!(
        job,
        RumbleJob {
            id: 9,
            strong_mag: 514,
            weak_mag: 771
        }
    );
    assert_eq!(
        engine.rumble_step(&job),
        Some(MotorStep::Rebuild {
            motor: Motor::Strong,
            magnitude: 514
        })
    );
    assert!(engine.effect_remade(9, Motor::Strong, 514, true));
    assert_eq!(
        engine.rumble_step(&job),
        Some(MotorStep::Rebuild {
            motor: Motor::Weak,
            magnitude: 771
        })
    );
    assert!(!engine.effect_remade(9, Motor::Weak, 771, false));
    assert!(engine.effect_remade(9, Motor::Weak, 771, true));
    assert_eq!(
        engine.rumble_step(&job),
        Some(MotorStep::Drive {
            strong: Some(true),
            weak: Some(true)
        })
    );
    let idle_slot = Rumble { slot: 1, ..rumble };
    assert_eq!(engine.begin_rumble(&ws, &idle_slot), None);
    engine.on_pad_event(&mut ws, &left(9, "nine"));
    assert_eq!(engine.rumble_step(&job), None);
    assert_eq!(engine.begin_rumble(&ws, &rumble), None);
}
