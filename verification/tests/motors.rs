use raspberry_switch_controller::bridge::connect;
use raspberry_switch_controller::models::{Rumble, WebState};
use raspberry_switch_controller::motors::{
    rumble_job, Motor, MotorBank, MotorStep, Motors, RumbleJob,
};

fn idle() -> Motors {
    Motors {
        strong: true,
        weak: true,
        strong_mag: 0,
        weak_mag: 0,
    }
}

#[test]
fn rumble_goes_to_the_pad_on_the_slot() {
    let mut ws = WebState::default();
    connect(&mut ws, 4, 30, "a");
    connect(&mut ws, 4, 31, "b");
    let rumble = Rumble {
        slot: 1,
        left: 255,
        right: 1,
    };
    assert_eq!(
        rumble_job(&ws, &rumble),
        Some(RumbleJob {
            id: 31,
            strong_mag: 65535,
            weak_mag: 257
        })
    );
    let nobody = Rumble {
        slot: 2,
        left: 255,
        right: 255,
    };
    assert_eq!(rumble_job(&ws, &nobody), None);
}

#[test]
fn changed_effects_are_made_anew_then_driven() {
    let want = RumbleJob {
        id: 1,
        strong_mag: 500,
        weak_mag: 0,
    };
    let mut motors = idle();
    assert_eq!(
        motors.next_step(&want),
        MotorStep::Rebuild {
            motor: Motor::Strong,
            magnitude: 500
        }
    );
    motors.rebuilt(Motor::Strong, 500, true);
    assert_eq!(
        motors.next_step(&want),
        MotorStep::Drive {
            strong: Some(true),
            weak: Some(false)
        }
    );
    let more = RumbleJob {
        weak_mag: 9,
        ..want
    };
    assert_eq!(
        motors.next_step(&more),
        MotorStep::Rebuild {
            motor: Motor::Weak,
            magnitude: 9
        }
    );
    motors.rebuilt(Motor::Weak, 9, false);
    assert!(!motors.weak);
    assert_eq!(motors.weak_mag, 0);
    assert_eq!(
        motors.next_step(&want),
        MotorStep::Drive {
            strong: Some(true),
            weak: None
        }
    );
}

#[test]
fn a_strong_effect_that_fails_is_tried_again() {
    let want = RumbleJob {
        id: 1,
        strong_mag: 500,
        weak_mag: 7,
    };
    let mut motors = idle();
    motors.rebuilt(Motor::Strong, 500, false);
    assert_eq!(
        motors,
        Motors {
            strong: false,
            ..idle()
        }
    );
    assert_eq!(
        motors.next_step(&want),
        MotorStep::Rebuild {
            motor: Motor::Strong,
            magnitude: 500
        }
    );
}

#[test]
fn the_bank_follows_the_pads() {
    let mut bank = MotorBank::new();
    assert_eq!(bank.pad(4), None);
    bank.add_pad(4, true, false);
    assert_eq!(
        bank.pad(4),
        Some(Motors {
            weak: false,
            ..idle()
        })
    );
    bank.rebuilt(4, Motor::Weak, 12, true);
    assert_eq!(
        bank.pad(4),
        Some(Motors {
            weak_mag: 12,
            ..idle()
        })
    );
    bank.rebuilt(5, Motor::Weak, 12, true);
    assert_eq!(bank.pad(5), None);
    bank.add_pad(4, true, true);
    assert_eq!(bank.pad(4), Some(idle()));
    assert_eq!(bank.remove_pad(4), Some(idle()));
    assert_eq!(bank.remove_pad(4), None);
}
