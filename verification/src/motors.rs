//! Rumble of the gamepads.
//!
//! A pad has a strong and a weak motor, each driven by a force-feedback
//! effect. An effect is made anew whenever its magnitude changes; the program
//! makes, plays and stops effects as told here.

use std::collections::HashMap;

use vstd::prelude::*;

use crate::bridge;
use crate::bridge::{find_holder, Attach};
use crate::models;
use crate::models::{ControllerState, Rumble, WebState};
use crate::search;

verus! {

/// Which of a pad's two motors.
#[derive(Clone, Copy, Debug, PartialEq, Eq, Structural)]
pub enum Motor {
    /// Low frequency, driven by the left motor of the Switch.
    Strong,
    /// High frequency, driven by the right motor of the Switch.
    Weak,
}

/// What a pad's motors are set to: whether there is an effect for each, and
/// the magnitude that it was made with.
#[derive(Clone, Copy, Debug, PartialEq, Eq, Structural)]
pub struct Motors {
    pub strong: bool,
    pub weak: bool,
    pub strong_mag: u16,
    pub weak_mag: u16,
}

/// A rumble to be played on a pad.
#[derive(Clone, Copy, Debug, PartialEq, Eq, Structural)]
pub struct RumbleJob {
    pub id: usize,
    pub strong_mag: u16,
    pub weak_mag: u16,
}

/// What to do next about a rumble.
#[derive(Clone, Copy, Debug, PartialEq, Eq, Structural)]
pub enum MotorStep {
    /// Stop the motor's effect if there is one, and make a new one.
    Rebuild { motor: Motor, magnitude: u16 },
    /// Play (or stop) each effect that there is.
    Drive { strong: Option<bool>, weak: Option<bool> },
}

/// A Switch motor magnitude on the scale of the pad's motors.
pub open spec fn motor_scale(mag: u8) -> u16 {
    (mag * u16::MAX / 255) as u16
}

fn scale_motor(mag: u8) -> (magnitude: u16)
    ensures
        magnitude == motor_scale(mag),
{
    (mag as u32 * u16::MAX as u32 / 255) as u16
}

/// The scale is linear: nothing for nothing, all for all, and more for more.
pub proof fn law_motor_scale(mag: u8)
    ensures
        motor_scale(mag) == 257 * mag,
{
}

/// The next step for `want` on a pad set to `motors`: first the strong effect
/// is brought to its magnitude, then the weak one, then both are driven.
pub open spec fn step_for(motors: Motors, want: RumbleJob) -> MotorStep {
    if motors.strong_mag != want.strong_mag {
        MotorStep::Rebuild { motor: Motor::Strong, magnitude: want.strong_mag }
    } else if motors.weak_mag != want.weak_mag {
        MotorStep::Rebuild { motor: Motor::Weak, magnitude: want.weak_mag }
    } else {
        MotorStep::Drive {
            strong: if motors.strong {
                Some(want.strong_mag > 0)
            } else {
                None
            },
            weak: if motors.weak {
                Some(want.weak_mag > 0)
            } else {
                None
            },
        }
    }
}

/// The motors after an effect was made anew, or could not be.
pub open spec fn after_rebuild(motors: Motors, motor: Motor, magnitude: u16, made: bool) -> Motors {
    let mag: u16 = if made {
        magnitude
    } else {
        0
    };
    match motor {
        Motor::Strong => Motors { strong: made, strong_mag: mag, ..motors },
        Motor::Weak => Motors { weak: made, weak_mag: mag, ..motors },
    }
}

impl Motors {
    /// The next step for a rumble.
    pub fn next_step(&self, want: &RumbleJob) -> (step: MotorStep)
        ensures
            step == step_for(*self, *want),
    {
        if self.strong_mag != want.strong_mag {
            return MotorStep::Rebuild { motor: Motor::Strong, magnitude: want.strong_mag };
        }
        if self.weak_mag != want.weak_mag {
            return MotorStep::Rebuild { motor: Motor::Weak, magnitude: want.weak_mag };
        }
        MotorStep::Drive {
            strong: if self.strong {
                Some(want.strong_mag > 0)
            } else {
                None
            },
            weak: if self.weak {
                Some(want.weak_mag > 0)
            } else {
                None
            },
        }
    }

    /// Note that an effect was made anew, or could not be; then the rumble is
    /// given up.
    pub fn rebuilt(&mut self, motor: Motor, magnitude: u16, made: bool)
        ensures
            *final(self) == after_rebuild(*old(self), motor, magnitude, made),
    {
        let mag: u16 = if made {
            magnitude
        } else {
            0
        };
        match motor {
            Motor::Strong => {
                self.strong = made;
                self.strong_mag = mag;
            },
            Motor::Weak => {
                self.weak = made;
                self.weak_mag = mag;
            },
        }
    }
}

/// The motors once a rumble was carried out, when making the strong and the
/// weak effect works as told.
pub open spec fn settled(
    motors: Motors,
    want: RumbleJob,
    strong_made: bool,
    weak_made: bool,
) -> Motors {
    match step_for(motors, want) {
        MotorStep::Rebuild { motor: Motor::Strong, magnitude } => {
            let first = after_rebuild(motors, Motor::Strong, magnitude, strong_made);
            if !strong_made {
                first
            } else {
                match step_for(first, want) {
                    MotorStep::Rebuild { motor, magnitude } => after_rebuild(
                        first,
                        motor,
                        magnitude,
                        weak_made,
                    ),
                    MotorStep::Drive { .. } => first,
                }
            }
        },
        MotorStep::Rebuild { motor: Motor::Weak, magnitude } => after_rebuild(
            motors,
            Motor::Weak,
            magnitude,
            weak_made,
        ),
        MotorStep::Drive { .. } => motors,
    }
}

/// When effects can be made, a rumble takes at most two of them and ends by
/// driving both motors: it settles on what was asked for, and asking again
/// makes nothing anew.
pub proof fn law_rumble_settles(motors: Motors, want: RumbleJob)
    ensures
        ({
            let end = settled(motors, want, true, true);
            &&& end.strong_mag == want.strong_mag
            &&& end.weak_mag == want.weak_mag
            &&& step_for(end, want) is Drive
            &&& settled(end, want, true, true) == end
        }),
{
}

/// When the strong effect cannot be made, the weak one is left alone, and the
/// next rumble that is not silent tries again.
pub proof fn law_rumble_retries(motors: Motors, want: RumbleJob, weak_made: bool)
    requires
        motors.strong_mag != want.strong_mag,
    ensures
        ({
            let end = settled(motors, want, false, weak_made);
            &&& end.weak == motors.weak
            &&& end.weak_mag == motors.weak_mag
            &&& !end.strong
            &&& want.strong_mag > 0 ==> step_for(end, want) == (MotorStep::Rebuild {
                motor: Motor::Strong,
                magnitude: want.strong_mag,
            })
        }),
{
}

/// The rumble job that a rumble of the gadget makes, if its slot is taken.
pub open spec fn job_for(controllers: Seq<ControllerState>, rumble: Rumble) -> Option<RumbleJob> {
    let i = bridge::holder(controllers, rumble.slot);
    if 0 <= i < controllers.len() {
        Some(
            RumbleJob {
                id: controllers[i].id,
                strong_mag: motor_scale(rumble.left),
                weak_mag: motor_scale(rumble.right),
            },
        )
    } else {
        None
    }
}

/// Find the pad that a rumble of the gadget is for, and what its motors are
/// asked to do. The left motor of the Switch drives the strong motor of the
/// pad, the right one the weak motor.
pub fn rumble_job(ws: &WebState, rumble: &Rumble) -> (job: Option<RumbleJob>)
    ensures
        job == job_for(ws.controllers@, *rumble),
{
    match find_holder(&ws.controllers, rumble.slot) {
        Some(i) => Some(
            RumbleJob {
                id: ws.controllers[i].id,
                strong_mag: scale_motor(rumble.left),
                weak_mag: scale_motor(rumble.right),
            },
        ),
        None => None,
    }
}

/// The motors of all pads, by controller number.
#[derive(Debug)]
pub struct MotorBank {
    pub motors: HashMap<usize, Motors>,
}

impl View for MotorBank {
    type V = Map<usize, Motors>;

    open spec fn view(&self) -> Map<usize, Motors> {
        self.motors@
    }
}

/// Motors whose effects were made with no magnitude.
pub open spec fn idle_motors(strong: bool, weak: bool) -> Motors {
    Motors { strong, weak, strong_mag: 0, weak_mag: 0 }
}

/// Every controller on the list has motors.
pub open spec fn covers(bank: Map<usize, Motors>, controllers: Seq<ControllerState>) -> bool {
    forall|i: int|
        0 <= i < controllers.len() ==> bank.dom().contains((#[trigger] controllers[i]).id)
}

impl MotorBank {
    pub fn new() -> (bank: Self)
        ensures
            bank@ == Map::<usize, Motors>::empty(),
    {
        broadcast use vstd::std_specs::hash::group_hash_axioms;

        MotorBank { motors: HashMap::new() }
    }

    /// Add a pad, given which of its effects could be made. One that was
    /// there before is replaced.
    pub fn add_pad(&mut self, id: usize, strong: bool, weak: bool)
        ensures
            final(self)@ == old(self)@.insert(id, idle_motors(strong, weak)),
    {
        broadcast use vstd::std_specs::hash::group_hash_axioms;

        self.motors.insert(id, Motors { strong, weak, strong_mag: 0, weak_mag: 0 });
    }

    /// What a pad's motors are set to.
    pub fn pad(&self, id: usize) -> (motors: Option<Motors>)
        ensures
            motors == if self@.dom().contains(id) {
                Some(self@[id])
            } else {
                None
            },
    {
        broadcast use vstd::std_specs::hash::group_hash_axioms;

        match self.motors.get(&id) {
            Some(motors) => Some(*motors),
            None => None,
        }
    }

    /// Note an effect that was made anew, or could not be. A pad that is gone
    /// stays gone.
    pub fn rebuilt(&mut self, id: usize, motor: Motor, magnitude: u16, made: bool)
        ensures
            final(self)@ == if old(self)@.dom().contains(id) {
                old(self)@.insert(id, after_rebuild(old(self)@[id], motor, magnitude, made))
            } else {
                old(self)@
            },
    {
        broadcast use vstd::std_specs::hash::group_hash_axioms;

        if let Some(mut motors) = self.pad(id) {
            motors.rebuilt(motor, magnitude, made);
            self.motors.insert(id, motors);
        }
    }

    /// Take a pad out. Returns what its motors were set to.
    pub fn remove_pad(&mut self, id: usize) -> (motors: Option<Motors>)
        ensures
            final(self)@ == old(self)@.remove(id),
            motors == if old(self)@.dom().contains(id) {
                Some(old(self)@[id])
            } else {
                None
            },
    {
        broadcast use vstd::std_specs::hash::group_hash_axioms;

        let motors = self.motors.remove(&id);
        assert(self@ =~= old(self)@.remove(id));
        motors
    }
}

/// Adding the motors of each pad that turns up and removing those of each pad
/// that leaves keeps motors for every controller on the list.
pub proof fn law_motors_follow_controllers(
    bank: Map<usize, Motors>,
    before: Seq<ControllerState>,
    after: Seq<ControllerState>,
    num_slots: usize,
    id: usize,
    name: Seq<char>,
    result: Attach,
    motors: Motors,
)
    requires
        covers(bank, before),
    ensures
        bridge::attached(before, after, num_slots, id, name, result) && result != Attach::Known
            ==> covers(bank.insert(id, motors), after),
        models::ids_distinct(models::entries_of(before)) && bridge::position(before, id)
            < before.len() ==> covers(bank.remove(id), before.remove(bridge::position(before, id))),
{
    if bridge::attached(before, after, num_slots, id, name, result) && result != Attach::Known {
        assert forall|i: int| 0 <= i < after.len() implies bank.insert(id, motors).dom().contains(
            (#[trigger] after[i]).id,
        ) by {
            if i < before.len() {
                if result is Slot {
                    assert(after[i] == after.drop_last()[i]);
                }
                assert(bank.dom().contains(before[i].id));
            }
        }
    }
    let k = bridge::position(before, id);
    search::lemma_first_from(before, |c: ControllerState| c.id == id, 0);
    if models::ids_distinct(models::entries_of(before)) && k < before.len() {
        bridge::law_disconnect_keeps_places(before, num_slots, k);
        let rest = before.remove(k);
        assert forall|i: int| 0 <= i < rest.len() implies bank.remove(id).dom().contains(
            (#[trigger] rest[i]).id,
        ) by {
            let j = if i < k {
                i
            } else {
                i + 1
            };
            assert(rest[i] == before[j]);
            assert(rest[i].id != before[k].id);
            assert(bank.dom().contains(before[j].id));
        }
    }
}

/// A motor is never driven by an effect of another magnitude: the step is to
/// drive exactly when both effects have the magnitudes asked for. The strong
/// one is made first. An effect plays exactly when its magnitude is not zero,
/// and one that is not there is left out.
pub proof fn law_motor_steps(motors: Motors, want: RumbleJob)
    ensures
        step_for(motors, want) is Drive <==> motors.strong_mag == want.strong_mag && motors.weak_mag
            == want.weak_mag,
        motors.strong_mag != want.strong_mag ==> step_for(motors, want) == (MotorStep::Rebuild {
            motor: Motor::Strong,
            magnitude: want.strong_mag,
        }),
        motors.strong_mag == want.strong_mag && motors.weak_mag != want.weak_mag ==> step_for(
            motors,
            want,
        ) == (MotorStep::Rebuild { motor: Motor::Weak, magnitude: want.weak_mag }),
        step_for(motors, want) matches MotorStep::Drive { strong, weak } ==> {
            &&& strong is Some <==> motors.strong
            &&& weak is Some <==> motors.weak
            &&& strong is Some ==> (strong->0 <==> want.strong_mag != 0)
            &&& weak is Some ==> (weak->0 <==> want.weak_mag != 0)
        },
{
}

/// Making an effect anew touches that motor alone. It has the magnitude it was
/// made with, or, when it could not be made, is gone with no magnitude.
pub proof fn law_rebuild(motors: Motors, magnitude: u16, made: bool)
    ensures
        ({
            let after = after_rebuild(motors, Motor::Strong, magnitude, made);
            &&& after.strong == made
            &&& made ==> after.strong_mag == magnitude
            &&& !made ==> after.strong_mag == 0
            &&& after.weak == motors.weak && after.weak_mag == motors.weak_mag
        }),
        ({
            let after = after_rebuild(motors, Motor::Weak, magnitude, made);
            &&& after.weak == made
            &&& made ==> after.weak_mag == magnitude
            &&& !made ==> after.weak_mag == 0
            &&& after.strong == motors.strong && after.strong_mag == motors.strong_mag
        }),
{
}

/// A rumble goes to the first controller on its slot: 257 times its left
/// magnitude to the strong motor and 257 times its right one to the weak motor.
/// On a slot that nobody is on it goes nowhere.
pub proof fn law_rumble_job(controllers: Seq<ControllerState>, rumble: Rumble, i: int)
    ensures
        0 <= i < controllers.len() && controllers[i].slot == Some(rumble.slot) && (forall|j: int|
            0 <= j < i ==> (#[trigger] controllers[j]).slot != Some(rumble.slot)) ==> job_for(
            controllers,
            rumble,
        ) == Some(
            RumbleJob {
                id: controllers[i].id,
                strong_mag: (257 * rumble.left) as u16,
                weak_mag: (257 * rumble.right) as u16,
            },
        ),
        job_for(controllers, rumble) is None <==> forall|j: int|
            0 <= j < controllers.len() ==> (#[trigger] controllers[j]).slot != Some(rumble.slot),
{
    bridge::law_first_found(controllers, rumble.slot, 0);
    law_motor_scale(rumble.left);
    law_motor_scale(rumble.right);
    let k = bridge::holder(controllers, rumble.slot);
    if k < controllers.len() {
        assert(controllers[k].slot == Some(rumble.slot));
    }
}

/// A pad that is added has the effects that could be made, both silent.
pub proof fn law_idle_motors(strong: bool, weak: bool)
    ensures
        idle_motors(strong, weak).strong == strong && idle_motors(strong, weak).weak == weak,
        idle_motors(strong, weak).strong_mag == 0 && idle_motors(strong, weak).weak_mag == 0,
{
}

} // verus!
