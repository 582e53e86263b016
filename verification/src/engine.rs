//! The bridge as a whole: gamepads, motors and the list of controllers kept
//! in step.
//!
//! The program owns the gamepads and their force-feedback effects. It reports
//! what happens to them, and makes, drives and drops effects as told.

use vstd::prelude::*;

use crate::bridge;
use crate::bridge::{attach, connect, disconnect, Attach, PadReading};
use crate::command;
use crate::models;
use crate::models::{Command, ControllerState, Rumble, WebState};
use crate::motors;
use crate::motors::{rumble_job, Motor, MotorBank, MotorStep, Motors, RumbleJob};
use crate::rumble;
use crate::search;
use crate::slot;
use crate::slot::SlotLink;

verus! {

/// Something that happened to a gamepad.
#[derive(Debug)]
pub enum PadEvent {
    Connected { id: usize, name: String },
    Disconnected { id: usize, name: String },
    Other,
}

/// What to do about a gamepad's effects.
#[derive(Clone, Copy, Debug, PartialEq, Eq, Structural)]
pub enum PadAction {
    Nothing,
    /// Make a strong and a weak effect, both without magnitude.
    MakeEffects { id: usize },
    /// Stop and drop the effects that there are.
    DropEffects { id: usize, strong: bool, weak: bool },
}

/// The state of the bridge, beside the list of controllers.
#[derive(Debug)]
pub struct Engine {
    pub num_slots: usize,
    pub bank: MotorBank,
}

/// A pad of which no effect was made yet.
pub open spec fn without_effects() -> Motors {
    motors::idle_motors(false, false)
}

/// Outcome of a gamepad that is there at start-up: an unknown one gets
/// effects, whether or not a slot is free for it.
pub open spec fn started(
    num_slots: usize,
    before: Seq<ControllerState>,
    after: Seq<ControllerState>,
    bank: Map<usize, Motors>,
    bank_after: Map<usize, Motors>,
    id: usize,
    name: Seq<char>,
    action: PadAction,
) -> bool {
    exists|result: Attach|
        {
            &&& #[trigger] bridge::attached(before, after, num_slots, id, name, result)
            &&& if result == Attach::Known {
                action == PadAction::Nothing && bank_after == bank
            } else {
                action == (PadAction::MakeEffects { id }) && bank_after == bank.insert(
                    id,
                    without_effects(),
                )
            }
        }
}

/// Outcome of a gamepad that connects: one that gets a slot gets effects, and
/// the status line says so; any other changes nothing.
pub open spec fn connected(
    num_slots: usize,
    before: Seq<ControllerState>,
    after: Seq<ControllerState>,
    status: Seq<char>,
    status_after: Seq<char>,
    bank: Map<usize, Motors>,
    bank_after: Map<usize, Motors>,
    id: usize,
    name: Seq<char>,
    action: PadAction,
) -> bool {
    exists|result: Attach|
        {
            &&& #[trigger] bridge::attached(before, after, num_slots, id, name, result)
            &&& match result {
                Attach::Slot(slot) => {
                    &&& action == (PadAction::MakeEffects { id })
                    &&& bank_after == bank.insert(id, without_effects())
                    &&& status_after == bridge::connected_text(name, slot)
                },
                _ => {
                    &&& action == PadAction::Nothing
                    &&& bank_after == bank
                    &&& status_after == status
                },
            }
        }
}

/// Outcome of a gamepad that disconnects: one on the list leaves it, and its
/// effects go; any other changes nothing.
pub open spec fn disconnected(
    before: WebState,
    after: WebState,
    bank: Map<usize, Motors>,
    bank_after: Map<usize, Motors>,
    id: usize,
    name: Seq<char>,
    action: PadAction,
) -> bool {
    let i = bridge::position(before.controllers@, id);
    if 0 <= i < before.controllers@.len() {
        &&& after.controllers@ == before.controllers@.remove(i)
        &&& after.status@ == bridge::disconnected_text(name)
        &&& bank_after == bank.remove(id)
        &&& action == if bank.dom().contains(id) {
            PadAction::DropEffects { id, strong: bank[id].strong, weak: bank[id].weak }
        } else {
            PadAction::Nothing
        }
    } else {
        after == before && bank_after == bank && action == PadAction::Nothing
    }
}

/// The rumble job that a rumble of the gadget makes, if its slot is taken by a
/// pad with motors.
pub open spec fn job_in(
    bank: Map<usize, Motors>,
    controllers: Seq<ControllerState>,
    rumble: Rumble,
) -> Option<RumbleJob> {
    match motors::job_for(controllers, rumble) {
        Some(found) => if bank.dom().contains(found.id) {
            Some(found)
        } else {
            None
        },
        None => None,
    }
}

/// The next step of a rumble, as long as its pad has motors.
pub open spec fn step_in(bank: Map<usize, Motors>, job: RumbleJob) -> Option<MotorStep> {
    if bank.dom().contains(job.id) {
        Some(motors::step_for(bank[job.id], job))
    } else {
        None
    }
}

impl Engine {
    /// Controllers and slots are distinct and in range, and every controller
    /// has motors.
    pub open spec fn wf(self, controllers: Seq<ControllerState>) -> bool {
        &&& models::places_ok(models::entries_of(controllers), self.num_slots)
        &&& motors::covers(self.bank@, controllers)
    }

    /// A bridge with `num_slots` slots and no controllers.
    pub fn new(num_slots: usize) -> (engine: Self)
        ensures
            engine.num_slots == num_slots,
            engine.bank@ == Map::<usize, Motors>::empty(),
            engine.wf(Seq::<ControllerState>::empty()),
    {
        Engine { num_slots, bank: MotorBank::new() }
    }

    /// Take in a gamepad that is there at start-up.
    pub fn start_pad(&mut self, ws: &mut WebState, id: usize, name: &str) -> (action: PadAction)
        ensures
            final(self).num_slots == old(self).num_slots,
            final(ws).status == old(ws).status,
            started(
                old(self).num_slots,
                old(ws).controllers@,
                final(ws).controllers@,
                old(self).bank@,
                final(self).bank@,
                id,
                name@,
                action,
            ),
            old(self).wf(old(ws).controllers@) ==> final(self).wf(final(ws).controllers@),
    {
        let ghost before = ws.controllers@;
        let result = attach(ws, self.num_slots, id, name);
        proof {
            lemma_attach_keeps(*self, before, ws.controllers@, id, name@, result);
        }
        match result {
            Attach::Known => PadAction::Nothing,
            _ => {
                self.bank.add_pad(id, false, false);
                PadAction::MakeEffects { id }
            },
        }
    }

    /// Take in an event of a gamepad.
    pub fn on_pad_event(&mut self, ws: &mut WebState, event: &PadEvent) -> (action: PadAction)
        ensures
            final(self).num_slots == old(self).num_slots,
            match *event {
                PadEvent::Connected { id, name } => connected(
                    old(self).num_slots,
                    old(ws).controllers@,
                    final(ws).controllers@,
                    old(ws).status@,
                    final(ws).status@,
                    old(self).bank@,
                    final(self).bank@,
                    id,
                    name@,
                    action,
                ),
                PadEvent::Disconnected { id, name } => disconnected(
                    *old(ws),
                    *final(ws),
                    old(self).bank@,
                    final(self).bank@,
                    id,
                    name@,
                    action,
                ),
                PadEvent::Other => *final(ws) == *old(ws) && final(self).bank@ == old(self).bank@
                    && action == PadAction::Nothing,
            },
            old(self).wf(old(ws).controllers@) ==> final(self).wf(final(ws).controllers@),
    {
        let ghost before = ws.controllers@;
        match event {
            PadEvent::Connected { id, name } => {
                let result = connect(ws, self.num_slots, *id, name.as_str());
                proof {
                    lemma_attach_keeps(*self, before, ws.controllers@, *id, name@, result);
                }
                match result {
                    Attach::Slot(_) => {
                        self.bank.add_pad(*id, false, false);
                        PadAction::MakeEffects { id: *id }
                    },
                    _ => PadAction::Nothing,
                }
            },
            PadEvent::Disconnected { id, name } => {
                proof {
                    lemma_disconnect_keeps(*self, before, *id);
                }
                match disconnect(ws, *id, name.as_str()) {
                    Some(_) => match self.bank.remove_pad(*id) {
                        Some(motors) => PadAction::DropEffects {
                            id: *id,
                            strong: motors.strong,
                            weak: motors.weak,
                        },
                        None => PadAction::Nothing,
                    },
                    None => PadAction::Nothing,
                }
            },
            PadEvent::Other => PadAction::Nothing,
        }
    }

    /// Note which of a gamepad's effects could be made.
    pub fn effects_made(&mut self, id: usize, strong: bool, weak: bool)
        ensures
            final(self).num_slots == old(self).num_slots,
            final(self).bank@ == old(self).bank@.insert(id, motors::idle_motors(strong, weak)),
            forall|controllers: Seq<ControllerState>|
                old(self).wf(controllers) ==> #[trigger] final(self).wf(controllers),
    {
        self.bank.add_pad(id, strong, weak);
    }

    /// Find the pad that a rumble of the gadget is for.
    pub fn begin_rumble(&self, ws: &WebState, rumble: &Rumble) -> (job: Option<RumbleJob>)
        ensures
            job == job_in(self.bank@, ws.controllers@, *rumble),
            self.wf(ws.controllers@) ==> job == motors::job_for(ws.controllers@, *rumble),
    {
        match rumble_job(ws, rumble) {
            Some(job) => {
                proof {
                    if self.wf(ws.controllers@) {
                        let i = bridge::holder(ws.controllers@, rumble.slot);
                        assert(self.bank@.dom().contains(ws.controllers@[i].id));
                    }
                }
                match self.bank.pad(job.id) {
                    Some(_) => Some(job),
                    None => None,
                }
            },
            None => None,
        }
    }

    /// The next step of a rumble, as long as its pad is there.
    pub fn rumble_step(&self, job: &RumbleJob) -> (step: Option<MotorStep>)
        ensures
            step == step_in(self.bank@, *job),
    {
        match self.bank.pad(job.id) {
            Some(motors) => Some(motors.next_step(job)),
            None => None,
        }
    }

    /// Note that an effect was made anew, or could not be. Returns whether the
    /// rumble goes on.
    pub fn effect_remade(&mut self, id: usize, motor: Motor, magnitude: u16, made: bool) -> (goes_on:
        bool)
        ensures
            goes_on == made,
            final(self).num_slots == old(self).num_slots,
            final(self).bank@ == if old(self).bank@.dom().contains(id) {
                old(self).bank@.insert(
                    id,
                    motors::after_rebuild(old(self).bank@[id], motor, magnitude, made),
                )
            } else {
                old(self).bank@
            },
            forall|controllers: Seq<ControllerState>|
                old(self).wf(controllers) ==> #[trigger] final(self).wf(controllers),
    {
        self.bank.rebuilt(id, motor, magnitude, made);
        made
    }
}

/// A gamepad that turns up keeps the bridge in step, once its motors are
/// added.
proof fn lemma_attach_keeps(
    engine: Engine,
    before: Seq<ControllerState>,
    after: Seq<ControllerState>,
    id: usize,
    name: Seq<char>,
    result: Attach,
)
    requires
        bridge::attached(before, after, engine.num_slots, id, name, result),
    ensures
        engine.wf(before) ==> {
            &&& models::places_ok(models::entries_of(after), engine.num_slots)
            &&& result is Known || result is NoFreeSlot ==> motors::covers(engine.bank@, after)
            &&& result !is Known ==> motors::covers(
                engine.bank@.insert(id, without_effects()),
                after,
            )
        },
{
    if engine.wf(before) {
        bridge::law_attach_keeps_places(before, after, engine.num_slots, id, name, result);
        motors::law_motors_follow_controllers(
            engine.bank@,
            before,
            after,
            engine.num_slots,
            id,
            name,
            result,
            without_effects(),
        );
    }
}

/// A gamepad that leaves keeps the bridge in step, once its motors are
/// removed.
proof fn lemma_disconnect_keeps(engine: Engine, before: Seq<ControllerState>, id: usize)
    ensures
        ({
            let i = bridge::position(before, id);
            &&& 0 <= i <= before.len()
            &&& engine.wf(before) && i < before.len() ==> {
                &&& models::places_ok(models::entries_of(before.remove(i)), engine.num_slots)
                &&& motors::covers(engine.bank@.remove(id), before.remove(i))
            }
        }),
{
    let i = bridge::position(before, id);
    search::lemma_first_from(before, |c: ControllerState| c.id == id, 0);
    if engine.wf(before) && i < before.len() {
        bridge::law_disconnect_keeps_places(before, engine.num_slots, i);
        motors::law_motors_follow_controllers(
            engine.bank@,
            before,
            before,
            engine.num_slots,
            id,
            Seq::empty(),
            Attach::Known,
            without_effects(),
        );
    }
}

/// Rumble that the host sends to a slot reaches the pad on it: the left
/// magnitude drives its strong motor, the right one its weak motor, both in
/// proportion.
pub proof fn law_rumble_reaches_pad(
    link: SlotLink,
    report: Seq<u8>,
    controllers: Seq<ControllerState>,
    i: int,
)
    requires
        rumble::is_rumble(report),
        models::slots_distinct(models::entries_of(controllers)),
        0 <= i < controllers.len(),
        controllers[i].slot == Some(link.slot),
    ensures
        ({
            let (left, right) = rumble::rumble_magnitudes(report, link.hdr);
            slot::rumble_in(link, report) matches Some(sent) && motors::job_for(controllers, sent)
                == Some(
                RumbleJob {
                    id: controllers[i].id,
                    strong_mag: (257 * left) as u16,
                    weak_mag: (257 * right) as u16,
                },
            )
        }),
{
    let (left, right) = rumble::rumble_magnitudes(report, link.hdr);
    motors::law_motor_scale(left);
    motors::law_motor_scale(right);
    bridge::lemma_sole_holder(controllers, link.slot, i);
}

/// The bridge stays in step as long as the numbers of the controllers stay and
/// their slots stay distinct and in range.
proof fn lemma_follows_entries(
    engine: Engine,
    before: Seq<ControllerState>,
    after: Seq<ControllerState>,
)
    requires
        engine.wf(before),
        after.len() == before.len(),
        forall|i: int| 0 <= i < before.len() ==> (#[trigger] after[i]).id == before[i].id,
        models::places_ok(models::entries_of(after), engine.num_slots),
    ensures
        engine.wf(after),
{
    assert forall|i: int| 0 <= i < after.len() implies engine.bank@.dom().contains(
        (#[trigger] after[i]).id,
    ) by {
        assert(engine.bank@.dom().contains(before[i].id));
    }
}

/// Commands, polling and marking a controller as vibrating keep the bridge in
/// step too. So it is in step in every state that it can reach.
pub proof fn law_engine_stays_in_step(
    engine: Engine,
    controllers: Seq<ControllerState>,
    readings: Seq<PadReading>,
    cmd: Command,
    id: usize,
    on: bool,
)
    requires
        engine.wf(controllers),
    ensures
        engine.wf(command::after_command(controllers, engine.num_slots, cmd)),
        engine.wf(bridge::after_poll(controllers, readings, engine.num_slots as int)),
        engine.wf(command::with_vibrating(controllers, id, on)),
{
    if let Command::Remap { controller_id, new_slot } = cmd {
        let entries = models::entries_of(controllers);
        let places = models::remapped(entries, controller_id, new_slot, engine.num_slots).0;
        let after = command::after_command(controllers, engine.num_slots, cmd);
        models::law_remap_keeps_places(entries, controller_id, new_slot, engine.num_slots);
        models::lemma_remap_shape(entries, controller_id, new_slot, engine.num_slots);
        assert forall|i: int| 0 <= i < places.len() implies #[trigger] models::entries_of(after)[i]
            == places[i] by {
            assert(places[i].id == entries[i].id);
        }
        assert(models::entries_of(after) =~= places);
        lemma_follows_entries(engine, controllers, after);
    }
    let polled = bridge::after_poll(controllers, readings, engine.num_slots as int);
    bridge::law_poll_keeps_places(controllers, readings, engine.num_slots as int);
    lemma_follows_entries(engine, controllers, polled);
    command::law_marks_keep_places(controllers, id, on);
    lemma_follows_entries(engine, controllers, command::with_vibrating(controllers, id, on));
}

/// What a start, a connect and a disconnect ask for. A pad that is on the list
/// already is left alone by both. At the start a new pad gets effects even if
/// no slot is free for it; when it connects later it gets them only with a
/// slot. The motors of all other pads stay as they are.
pub proof fn law_pads_turn_up(
    num_slots: usize,
    before: Seq<ControllerState>,
    after: Seq<ControllerState>,
    status: Seq<char>,
    status_after: Seq<char>,
    bank: Map<usize, Motors>,
    bank_after: Map<usize, Motors>,
    id: usize,
    name: Seq<char>,
    action: PadAction,
)
    ensures
        ({
            let known = exists|i: int| 0 <= i < before.len() && (#[trigger] before[i]).id == id;
            let silent = Motors { strong: false, weak: false, strong_mag: 0, weak_mag: 0 };
            &&& started(num_slots, before, after, bank, bank_after, id, name, action) ==> {
                &&& known ==> action == PadAction::Nothing && bank_after == bank && after == before
                &&& !known ==> action == (PadAction::MakeEffects { id }) && bank_after
                    == bank.insert(id, silent)
                &&& after != before ==> {
                    &&& after.len() == before.len() + 1
                    &&& after.last().id == id
                    &&& after.last().slot is Some && after.last().slot->0 < num_slots
                }
            }
            &&& connected(
                num_slots,
                before,
                after,
                status,
                status_after,
                bank,
                bank_after,
                id,
                name,
                action,
            ) ==> {
                &&& known ==> after == before
                &&& after == before ==> action == PadAction::Nothing && bank_after == bank
                    && status_after == status
                &&& after != before ==> {
                    &&& after.len() == before.len() + 1
                    &&& after.last().id == id
                    &&& after.last().slot is Some && after.last().slot->0 < num_slots
                    &&& action == (PadAction::MakeEffects { id })
                    &&& bank_after == bank.insert(id, silent)
                    &&& status_after == bridge::connected_text(name, after.last().slot->0)
                }
            }
        }),
{
    if started(num_slots, before, after, bank, bank_after, id, name, action) {
        let result = choose|result: Attach|
            {
                &&& #[trigger] bridge::attached(before, after, num_slots, id, name, result)
                &&& if result == Attach::Known {
                    action == PadAction::Nothing && bank_after == bank
                } else {
                    action == (PadAction::MakeEffects { id }) && bank_after == bank.insert(
                        id,
                        without_effects(),
                    )
                }
            };
        bridge::law_attach_outcomes(before, after, num_slots, id, name, result, 0);
    }
    if connected(
        num_slots,
        before,
        after,
        status,
        status_after,
        bank,
        bank_after,
        id,
        name,
        action,
    ) {
        let result = choose|result: Attach|
            {
                &&& #[trigger] bridge::attached(before, after, num_slots, id, name, result)
                &&& match result {
                    Attach::Slot(slot) => {
                        &&& action == (PadAction::MakeEffects { id })
                        &&& bank_after == bank.insert(id, without_effects())
                        &&& status_after == bridge::connected_text(name, slot)
                    },
                    _ => {
                        &&& action == PadAction::Nothing
                        &&& bank_after == bank
                        &&& status_after == status
                    },
                }
            };
        bridge::law_attach_outcomes(before, after, num_slots, id, name, result, 0);
    }
}

/// A pad that disconnects: the first controller of its number goes, the others
/// keep their order, its motors go, and exactly the effects that there were are
/// to be dropped. A pad that is not on the list changes nothing.
pub proof fn law_pads_leave(
    before: WebState,
    after: WebState,
    bank: Map<usize, Motors>,
    bank_after: Map<usize, Motors>,
    id: usize,
    name: Seq<char>,
    action: PadAction,
    i: int,
)
    requires
        disconnected(before, after, bank, bank_after, id, name, action),
        0 <= i <= before.controllers@.len(),
        i < before.controllers@.len() ==> before.controllers@[i].id == id,
        forall|j: int| 0 <= j < i ==> (#[trigger] before.controllers@[j]).id != id,
    ensures
        i == before.controllers@.len() ==> after == before && bank_after == bank && action
            == PadAction::Nothing,
        i < before.controllers@.len() ==> {
            &&& after.controllers@ == before.controllers@.take(i) + before.controllers@.skip(i + 1)
            &&& after.status@ == name + " disconnected"@
            &&& !bank_after.dom().contains(id)
            &&& forall|other: usize|
                other != id ==> (bank_after.dom().contains(other) <==> bank.dom().contains(other))
            &&& forall|other: usize|
                other != id && bank.dom().contains(other) ==> #[trigger] bank_after[other]
                    == bank[other]
            &&& action matches PadAction::DropEffects { id: pad, strong, weak } ==> pad == id
                && bank.dom().contains(id) && strong == bank[id].strong && weak == bank[id].weak
            &&& action is DropEffects <==> bank.dom().contains(id)
            &&& action is Nothing <==> !bank.dom().contains(id)
        },
{
    bridge::law_first_found(before.controllers@, 0, id);
    if i < before.controllers@.len() {
        assert(after.controllers@ =~= before.controllers@.take(i) + before.controllers@.skip(
            i + 1,
        ));
    }
}

/// A rumble is played on the first controller on its slot, if that has motors:
/// 257 times its left magnitude on the strong motor, 257 times its right one on
/// the weak motor. Otherwise nothing is played.
pub proof fn law_rumble_is_played(
    bank: Map<usize, Motors>,
    controllers: Seq<ControllerState>,
    rumble: Rumble,
    i: int,
)
    requires
        0 <= i <= controllers.len(),
        i < controllers.len() ==> controllers[i].slot == Some(rumble.slot),
        forall|j: int| 0 <= j < i ==> (#[trigger] controllers[j]).slot != Some(rumble.slot),
    ensures
        job_in(bank, controllers, rumble) is Some <==> i < controllers.len()
            && bank.dom().contains(controllers[i].id),
        job_in(bank, controllers, rumble) matches Some(job) ==> {
            &&& job.id == controllers[i].id
            &&& job.strong_mag == 257 * rumble.left
            &&& job.weak_mag == 257 * rumble.right
        },
{
    motors::law_rumble_job(controllers, rumble, i);
}

/// A rumble goes on only while its pad has motors, and takes its steps from how
/// these are set: it ends by driving them once both have the magnitudes asked
/// for.
pub proof fn law_rumble_goes_on(bank: Map<usize, Motors>, job: RumbleJob)
    ensures
        step_in(bank, job) is Some <==> bank.dom().contains(job.id),
        bank.dom().contains(job.id) ==> (step_in(bank, job)->0 is Drive <==> bank[job.id].strong_mag
            == job.strong_mag && bank[job.id].weak_mag == job.weak_mag),
        bank.dom().contains(job.id) ==> step_in(bank, job) == Some(
            motors::step_for(bank[job.id], job),
        ),
{
}

} // verus!
