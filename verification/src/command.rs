//! Commands of the web page, and manual vibration.

use vstd::prelude::*;

use crate::bridge;
use crate::bridge::find_id;
use crate::models;
use crate::models::{apply_remap, Command, ControllerState, RemapOutcome, SlotEntry, WebState};
use crate::search;
use crate::text;
use crate::text::{append_number, numbered};

verus! {

/// Longest manual vibration, in milliseconds.
pub const MAX_VIBRATION_MS: u64 = 5000;

/// Length of one identification pulse and of the pause behind it, in
/// milliseconds.
pub const IDENTIFY_PULSE_MS: u64 = 100;

/// A manual vibration to be started.
#[derive(Clone, Copy, Debug, PartialEq, Eq, Structural)]
pub struct ManualVibration {
    pub id: usize,
    /// Two short pulses rather than one of `duration_ms`.
    pub identify: bool,
    pub duration_ms: u64,
}

/// Whether controller `id` may start a manual vibration: it is on the list
/// and does not vibrate yet.
pub open spec fn may_vibrate(controllers: Seq<ControllerState>, id: usize) -> bool {
    let i = bridge::position(controllers, id);
    0 <= i < controllers.len() && !controllers[i].is_vibrating
}

/// `ms` up to the longest manual vibration.
pub open spec fn capped(ms: u64) -> u64 {
    if ms > MAX_VIBRATION_MS {
        MAX_VIBRATION_MS
    } else {
        ms
    }
}

/// The manual vibration that a command starts, if any.
pub open spec fn vibration_for(controllers: Seq<ControllerState>, cmd: Command) -> Option<
    ManualVibration,
> {
    match cmd {
        Command::Remap { .. } => None,
        Command::Identify { controller_id } => if may_vibrate(controllers, controller_id) {
            Some(ManualVibration { id: controller_id, identify: true, duration_ms: 0 })
        } else {
            None
        },
        Command::Vibrate { controller_id, duration_ms } => if may_vibrate(
            controllers,
            controller_id,
        ) {
            Some(
                ManualVibration {
                    id: controller_id,
                    identify: false,
                    duration_ms: capped(duration_ms),
                },
            )
        } else {
            None
        },
    }
}

/// What became of a command.
#[derive(Clone, Copy, Debug, PartialEq, Eq, Structural)]
pub enum CommandOutcome {
    /// A remap was tried, with this outcome.
    Remap(RemapOutcome),
    /// This vibration is to be started.
    Vibrate(ManualVibration),
    /// The controller vibrates already.
    AlreadyVibrating,
    /// No such controller is on the list.
    UnknownController,
}

/// The remap of a controller: the slots after it, and its
/// outcome.
pub open spec fn remap_for(
    controllers: Seq<ControllerState>,
    num_slots: usize,
    controller_id: usize,
    new_slot: usize,
) -> (Seq<SlotEntry>, RemapOutcome) {
    models::remapped(models::entries_of(controllers), controller_id, new_slot, num_slots)
}

/// What becomes of a command to vibrate controller `id`.
pub open spec fn vibration_outcome(
    controllers: Seq<ControllerState>,
    id: usize,
    cmd: Command,
) -> CommandOutcome {
    match vibration_for(controllers, cmd) {
        Some(vibration) => CommandOutcome::Vibrate(vibration),
        None => if bridge::position(controllers, id) < controllers.len() {
            CommandOutcome::AlreadyVibrating
        } else {
            CommandOutcome::UnknownController
        },
    }
}

/// What becomes of a command.
pub open spec fn outcome_of(
    controllers: Seq<ControllerState>,
    num_slots: usize,
    cmd: Command,
) -> CommandOutcome {
    match cmd {
        Command::Remap { controller_id, new_slot } => CommandOutcome::Remap(
            remap_for(controllers, num_slots, controller_id, new_slot).1,
        ),
        Command::Identify { controller_id } => vibration_outcome(controllers, controller_id, cmd),
        Command::Vibrate { controller_id, .. } => vibration_outcome(
            controllers,
            controller_id,
            cmd,
        ),
    }
}

/// The slot that a swap leaves can be counted from one, to name it in the
/// status line.
pub open spec fn can_name_slots(
    controllers: Seq<ControllerState>,
    num_slots: usize,
    cmd: Command,
) -> bool {
    outcome_of(controllers, num_slots, cmd) matches CommandOutcome::Remap(
        RemapOutcome::Swapped { old_slot, .. },
    ) ==> old_slot < usize::MAX
}

/// The controllers after a command.
pub open spec fn after_command(
    controllers: Seq<ControllerState>,
    num_slots: usize,
    cmd: Command,
) -> Seq<ControllerState> {
    match cmd {
        Command::Remap { controller_id, new_slot } => models::with_entry_slots(
            controllers,
            remap_for(controllers, num_slots, controller_id, new_slot).0,
        ),
        _ => controllers,
    }
}

/// The status line after a remap, or nothing when it stays.
pub open spec fn remap_text(
    controllers: Seq<ControllerState>,
    num_slots: usize,
    controller_id: usize,
    new_slot: usize,
) -> Option<Seq<char>> {
    match remap_for(controllers, num_slots, controller_id, new_slot).1 {
        RemapOutcome::Swapped { old_slot, new_slot } => Some(
            "Swapped slot "@ + text::decimal((new_slot + 1) as nat) + " <-> slot "@
                + text::decimal((old_slot + 1) as nat),
        ),
        RemapOutcome::Moved => Some(
            "Remapped controller "@ + text::decimal(controller_id as nat) + " to slot "@
                + text::decimal((new_slot + 1) as nat),
        ),
        _ => None,
    }
}

/// The status line after a command.
pub open spec fn command_text(
    controllers: Seq<ControllerState>,
    num_slots: usize,
    cmd: Command,
    status: Seq<char>,
) -> Seq<char> {
    match cmd {
        Command::Remap { controller_id, new_slot } => match remap_text(
            controllers,
            num_slots,
            controller_id,
            new_slot,
        ) {
            Some(line) => line,
            None => status,
        },
        _ => status,
    }
}

/// `before`, a number, `between`, a number.
fn two_numbers(before: &str, n: u64, between: &str, m: u64) -> (line: String)
    ensures
        line@ == before@ + text::decimal(n as nat) + between@ + text::decimal(m as nat),
{
    let mut line = numbered(before, n, between);
    append_number(&mut line, m);
    line
}

/// Carry out a command of the web page. Starting a vibration is left to the
/// caller.
pub fn handle_command(ws: &mut WebState, num_slots: usize, cmd: Command) -> (outcome:
    CommandOutcome)
    requires
        can_name_slots(old(ws).controllers@, num_slots, cmd),
    ensures
        outcome == outcome_of(old(ws).controllers@, num_slots, cmd),
        final(ws).controllers@ == after_command(old(ws).controllers@, num_slots, cmd),
        final(ws).status@ == command_text(
            old(ws).controllers@,
            num_slots,
            cmd,
            old(ws).status@,
        ),
        models::places_ok(models::entries_of(old(ws).controllers@), num_slots)
            ==> models::places_ok(models::entries_of(final(ws).controllers@), num_slots),
{
    match cmd {
        Command::Remap { controller_id, new_slot } => CommandOutcome::Remap(
            handle_remap(ws, num_slots, controller_id, new_slot),
        ),
        Command::Identify { controller_id } => handle_vibration(
            ws,
            ManualVibration { id: controller_id, identify: true, duration_ms: 0 },
        ),
        Command::Vibrate { controller_id, duration_ms } => {
            let duration_ms: u64 = if duration_ms > MAX_VIBRATION_MS {
                MAX_VIBRATION_MS
            } else {
                duration_ms
            };
            handle_vibration(
                ws,
                ManualVibration { id: controller_id, identify: false, duration_ms },
            )
        },
    }
}

/// Let a vibration start, unless its controller vibrates already or is not on
/// the list.
fn handle_vibration(ws: &WebState, vibration: ManualVibration) -> (outcome: CommandOutcome)
    ensures
        outcome == if may_vibrate(ws.controllers@, vibration.id) {
            CommandOutcome::Vibrate(vibration)
        } else if bridge::position(ws.controllers@, vibration.id) < ws.controllers@.len() {
            CommandOutcome::AlreadyVibrating
        } else {
            CommandOutcome::UnknownController
        },
{
    match find_id(&ws.controllers, vibration.id) {
        Some(i) => if ws.controllers[i].is_vibrating {
            CommandOutcome::AlreadyVibrating
        } else {
            CommandOutcome::Vibrate(vibration)
        },
        None => CommandOutcome::UnknownController,
    }
}

fn handle_remap(ws: &mut WebState, num_slots: usize, controller_id: usize, new_slot: usize) -> (
    outcome: RemapOutcome)
    requires
        can_name_slots(
            old(ws).controllers@,
            num_slots,
            Command::Remap { controller_id, new_slot },
        ),
    ensures
        outcome == remap_for(old(ws).controllers@, num_slots, controller_id, new_slot).1,
        final(ws).controllers@ == after_command(
            old(ws).controllers@,
            num_slots,
            Command::Remap { controller_id, new_slot },
        ),
        final(ws).status@ == command_text(
            old(ws).controllers@,
            num_slots,
            Command::Remap { controller_id, new_slot },
            old(ws).status@,
        ),
        models::places_ok(models::entries_of(old(ws).controllers@), num_slots)
            ==> models::places_ok(models::entries_of(final(ws).controllers@), num_slots),
{
    let ghost before = ws.controllers@;
    let ghost entries = models::entries_of(before);
    let ghost after = models::remapped(entries, controller_id, new_slot, num_slots).0;
    proof {
        models::law_remap_keeps_places(entries, controller_id, new_slot, num_slots);
        models::lemma_remap_shape(entries, controller_id, new_slot, num_slots);
        search::lemma_first_from(entries, |e: SlotEntry| e.id == controller_id, 0);
        assert(models::entries_of(models::with_entry_slots(before, after)) =~= after);
    }
    let outcome = apply_remap(
        ws.controllers.as_mut_slice(),
        controller_id,
        new_slot,
        num_slots,
    );
    match outcome {
        RemapOutcome::Swapped { old_slot, new_slot } => {
            ws.status = two_numbers(
                "Swapped slot ",
                new_slot as u64 + 1,
                " <-> slot ",
                old_slot as u64 + 1,
            );
        },
        RemapOutcome::Moved => {
            ws.status = two_numbers(
                "Remapped controller ",
                controller_id as u64,
                " to slot ",
                new_slot as u64 + 1,
            );
        },
        _ => {},
    }
    outcome
}

/// Controllers on slots of the gadget can take every command.
pub proof fn law_commands_can_be_taken(
    controllers: Seq<ControllerState>,
    num_slots: usize,
    cmd: Command,
)
    requires
        models::slots_in_range(models::entries_of(controllers), num_slots),
    ensures
        can_name_slots(controllers, num_slots, cmd),
{
    if let Command::Remap { controller_id, .. } = cmd {
        let entries = models::entries_of(controllers);
        search::lemma_first_from(entries, |e: SlotEntry| e.id == controller_id, 0);
    }
}

/// One step of a manual vibration.
#[derive(Clone, Copy, Debug, PartialEq, Eq, Structural)]
pub enum VibrationStep {
    Play,
    Stop,
    /// Wait this many milliseconds.
    Wait(u64),
}

/// The steps of a manual vibration: two short pulses to identify a pad, one
/// pulse otherwise.
pub open spec fn vibration_steps(v: ManualVibration) -> Seq<VibrationStep> {
    if v.identify {
        seq![
            VibrationStep::Play,
            VibrationStep::Wait(IDENTIFY_PULSE_MS),
            VibrationStep::Stop,
            VibrationStep::Wait(IDENTIFY_PULSE_MS),
            VibrationStep::Play,
            VibrationStep::Wait(IDENTIFY_PULSE_MS),
            VibrationStep::Stop,
        ]
    } else {
        seq![VibrationStep::Play, VibrationStep::Wait(v.duration_ms), VibrationStep::Stop]
    }
}

impl ManualVibration {
    /// The steps of this vibration. The controller counts as vibrating from
    /// before the first to after the last of them.
    pub fn steps(&self) -> (steps: Vec<VibrationStep>)
        ensures
            steps@ == vibration_steps(*self),
    {
        let steps = if self.identify {
            vec![
                VibrationStep::Play,
                VibrationStep::Wait(IDENTIFY_PULSE_MS),
                VibrationStep::Stop,
                VibrationStep::Wait(IDENTIFY_PULSE_MS),
                VibrationStep::Play,
                VibrationStep::Wait(IDENTIFY_PULSE_MS),
                VibrationStep::Stop,
            ]
        } else {
            vec![VibrationStep::Play, VibrationStep::Wait(self.duration_ms), VibrationStep::Stop]
        };
        assert(steps@ =~= vibration_steps(*self));
        steps
    }
}

/// The milliseconds that a run of steps waits.
pub open spec fn waiting(steps: Seq<VibrationStep>) -> int
    decreases steps.len(),
{
    if steps.len() == 0 {
        0
    } else {
        waiting(steps.drop_last()) + match steps.last() {
            VibrationStep::Wait(ms) => ms as int,
            _ => 0,
        }
    }
}

/// Whatever a command asks for, the vibration that it starts ends with the
/// motor stopped, within the longest time allowed.
pub proof fn law_vibration_ends(controllers: Seq<ControllerState>, cmd: Command)
    requires
        vibration_for(controllers, cmd) is Some,
    ensures
        ({
            let steps = vibration_steps(vibration_for(controllers, cmd)->0);
            &&& steps[0] == VibrationStep::Play
            &&& steps.last() == VibrationStep::Stop
            &&& waiting(steps) <= MAX_VIBRATION_MS
        }),
{
    let v = vibration_for(controllers, cmd)->0;
    let steps = vibration_steps(v);
    reveal_with_fuel(waiting, 8);
    if v.identify {
        assert(waiting(steps) == 3 * IDENTIFY_PULSE_MS);
    } else {
        assert(waiting(steps) == v.duration_ms);
    }
}

/// The controllers with the vibration mark of controller `id` set to `on`.
pub open spec fn with_vibrating(
    controllers: Seq<ControllerState>,
    id: usize,
    on: bool,
) -> Seq<ControllerState> {
    let i = bridge::position(controllers, id);
    if 0 <= i < controllers.len() {
        controllers.update(i, ControllerState { is_vibrating: on, ..controllers[i] })
    } else {
        controllers
    }
}

/// Mark a controller as vibrating or not. One that is gone stays gone.
pub fn set_vibrating(ws: &mut WebState, id: usize, on: bool)
    ensures
        final(ws).controllers@ == with_vibrating(old(ws).controllers@, id, on),
        final(ws).status == old(ws).status,
{
    if let Some(i) = find_id(&ws.controllers, id) {
        ws.controllers[i].is_vibrating = on;
        assert(ws.controllers@ =~= with_vibrating(old(ws).controllers@, id, on));
    }
}

/// Begin a vibration, given whether an effect for it could be made. Marks the
/// controller and returns the steps to go through, after which the mark is to
/// be cleared. Without an effect nothing happens.
pub fn begin_vibration(ws: &mut WebState, v: ManualVibration, made: bool) -> (steps: Option<
    Vec<VibrationStep>,
>)
    ensures
        made ==> steps is Some && steps->0@ == vibration_steps(v) && final(ws).controllers@
            == with_vibrating(old(ws).controllers@, v.id, true),
        !made ==> steps is None && final(ws).controllers@ == old(ws).controllers@,
        final(ws).status == old(ws).status,
{
    if !made {
        return None;
    }
    set_vibrating(ws, v.id, true);
    Some(v.steps())
}

/// A vibration that was allowed leaves the list as it was, once its mark is
/// cleared.
pub proof fn law_vibration_leaves_no_mark(controllers: Seq<ControllerState>, id: usize)
    requires
        may_vibrate(controllers, id),
    ensures
        with_vibrating(with_vibrating(controllers, id, true), id, false) == controllers,
{
    let has_id = |c: ControllerState| c.id == id;
    let i = bridge::position(controllers, id);
    let marked = with_vibrating(controllers, id, true);
    search::lemma_first_from(controllers, has_id, 0);
    search::lemma_is_first(marked, has_id, i);
    assert(with_vibrating(marked, id, false) =~= controllers);
}

/// Marking a controller moves none.
pub proof fn law_marks_keep_places(controllers: Seq<ControllerState>, id: usize, on: bool)
    ensures
        models::entries_of(with_vibrating(controllers, id, on)) == models::entries_of(controllers),
{
    assert(models::entries_of(with_vibrating(controllers, id, on)) =~= models::entries_of(
        controllers,
    ));
}

/// A controller on the list can start no second vibration during the first
/// one, and can start another after it.
pub proof fn law_vibration_guard(controllers: Seq<ControllerState>, id: usize)
    requires
        bridge::listed(controllers, id),
    ensures
        !may_vibrate(with_vibrating(controllers, id, true), id),
        may_vibrate(with_vibrating(controllers, id, false), id),
{
    let has_id = |c: ControllerState| c.id == id;
    search::lemma_first_from(controllers, has_id, 0);
    let i = bridge::position(controllers, id);
    let k = choose|j: int| 0 <= j < controllers.len() && (#[trigger] controllers[j]).id == id;
    assert(i <= k);
    search::lemma_is_first(with_vibrating(controllers, id, true), has_id, i);
    search::lemma_is_first(with_vibrating(controllers, id, false), has_id, i);
}

/// A manual vibration starts exactly for a controller that is on the list and
/// not vibrating. It lasts as long as asked for, but no longer than five
/// seconds; identifying is told apart by its mark. A remap starts none.
pub proof fn law_vibration_requests(
    controllers: Seq<ControllerState>,
    num_slots: usize,
    id: usize,
    ms: u64,
    i: int,
)
    requires
        0 <= i < controllers.len(),
        controllers[i].id == id,
        forall|j: int| 0 <= j < i ==> (#[trigger] controllers[j]).id != id,
    ensures
        ({
            let identify = outcome_of(
                controllers,
                num_slots,
                Command::Identify { controller_id: id },
            );
            let vibrate = outcome_of(
                controllers,
                num_slots,
                Command::Vibrate { controller_id: id, duration_ms: ms },
            );
            &&& controllers[i].is_vibrating ==> identify == CommandOutcome::AlreadyVibrating
                && vibrate == CommandOutcome::AlreadyVibrating
            &&& !controllers[i].is_vibrating ==> {
                &&& identify matches CommandOutcome::Vibrate(v) && v.id == id && v.identify
                    && v.duration_ms == 0
                &&& vibrate matches CommandOutcome::Vibrate(v) && v.id == id && !v.identify
                    && v.duration_ms <= 5000 && v.duration_ms <= ms && (ms <= 5000
                    ==> v.duration_ms == ms) && (ms > 5000 ==> v.duration_ms == 5000)
            }
        }),
{
    bridge::law_first_found(controllers, 0, id);
}

/// A controller that is not on the list cannot vibrate, and nothing but a remap
/// changes the list or the status line.
pub proof fn law_unknown_controller(
    controllers: Seq<ControllerState>,
    num_slots: usize,
    id: usize,
    ms: u64,
    status: Seq<char>,
)
    ensures
        ({
            let identify = Command::Identify { controller_id: id };
            let vibrate = Command::Vibrate { controller_id: id, duration_ms: ms };
            &&& (forall|j: int| 0 <= j < controllers.len() ==> (#[trigger] controllers[j]).id != id)
                ==> {
                &&& outcome_of(controllers, num_slots, identify)
                    == CommandOutcome::UnknownController
                &&& outcome_of(controllers, num_slots, vibrate) == CommandOutcome::UnknownController
            }
            &&& after_command(controllers, num_slots, identify) == controllers
            &&& after_command(controllers, num_slots, vibrate) == controllers
            &&& command_text(controllers, num_slots, identify, status) == status
            &&& command_text(controllers, num_slots, vibrate, status) == status
        }),
{
    bridge::law_first_found(controllers, 0, id);
}

/// A remap of a controller that is on the list and on a slot, to another slot
/// that the gadget has, is carried out: the first controller on that slot takes
/// the old one in exchange, and where nobody is on it the move is all. Numbers,
/// names and everything else stay, and the status line tells both slots, or the
/// controller and its slot, counted from one.
pub proof fn law_remap_command(
    controllers: Seq<ControllerState>,
    num_slots: usize,
    id: usize,
    new_slot: usize,
    i: int,
    old_slot: usize,
    other: int,
    k: int,
    status: Seq<char>,
)
    requires
        0 <= i < controllers.len(),
        controllers[i].id == id,
        forall|j: int| 0 <= j < i ==> (#[trigger] controllers[j]).id != id,
        controllers[i].slot == Some(old_slot),
        old_slot != new_slot,
        new_slot < num_slots,
        0 <= other <= controllers.len(),
        other < controllers.len() ==> controllers[other].slot == Some(new_slot),
        forall|j: int| 0 <= j < other ==> (#[trigger] controllers[j]).slot != Some(new_slot),
        0 <= k < controllers.len(),
    ensures
        ({
            let cmd = Command::Remap { controller_id: id, new_slot };
            let outcome = outcome_of(controllers, num_slots, cmd);
            let after = after_command(controllers, num_slots, cmd);
            let line = command_text(controllers, num_slots, cmd, status);
            &&& after.len() == controllers.len()
            &&& after[k].id == controllers[k].id
            &&& after[k].name == controllers[k].name
            &&& after[k].battery == controllers[k].battery
            &&& after[k].is_vibrating == controllers[k].is_vibrating
            &&& after[k].input == controllers[k].input
            &&& after[i].slot == Some(new_slot)
            &&& other < controllers.len() ==> {
                &&& outcome == CommandOutcome::Remap(RemapOutcome::Swapped { old_slot, new_slot })
                &&& after[other].slot == Some(old_slot)
                &&& line == "Swapped slot "@ + text::decimal((new_slot + 1) as nat)
                    + " <-> slot "@ + text::decimal((old_slot + 1) as nat)
            }
            &&& other == controllers.len() ==> {
                &&& outcome == CommandOutcome::Remap(RemapOutcome::Moved)
                &&& line == "Remapped controller "@ + text::decimal(id as nat) + " to slot "@
                    + text::decimal((new_slot + 1) as nat)
            }
            &&& k != i && k != other ==> after[k].slot == controllers[k].slot
        }),
{
    let entries = models::entries_of(controllers);
    assert(entries[i].id == id && entries[i].slot == Some(old_slot));
    assert forall|j: int| 0 <= j < i implies (#[trigger] entries[j]).id != id by {
        assert(controllers[j].id != id);
    }
    assert forall|j: int| 0 <= j < other implies (#[trigger] entries[j]).slot != Some(
        new_slot,
    ) by {
        assert(controllers[j].slot != Some(new_slot));
    }
    models::law_remap_carried_out(entries, id, new_slot, num_slots, i, old_slot, other);
    models::lemma_remap_shape(entries, id, new_slot, num_slots);
}

/// A remap to a slot that the gadget has not, to the slot that the controller
/// is on, or of a controller that is on no slot or not on the list changes
/// neither the list nor the status line.
pub proof fn law_remap_command_refused(
    controllers: Seq<ControllerState>,
    num_slots: usize,
    id: usize,
    new_slot: usize,
    i: int,
    status: Seq<char>,
)
    requires
        0 <= i <= controllers.len(),
        i < controllers.len() ==> controllers[i].id == id,
        forall|j: int| 0 <= j < i ==> (#[trigger] controllers[j]).id != id,
        new_slot >= num_slots || i == controllers.len() || controllers[i].slot is None
            || controllers[i].slot == Some(new_slot),
    ensures
        ({
            let cmd = Command::Remap { controller_id: id, new_slot };
            let outcome = outcome_of(controllers, num_slots, cmd);
            &&& after_command(controllers, num_slots, cmd) == controllers
            &&& command_text(controllers, num_slots, cmd, status) == status
            &&& outcome == CommandOutcome::Remap(RemapOutcome::InvalidSlot) <==> new_slot
                >= num_slots
            &&& new_slot < num_slots && (i == controllers.len() || controllers[i].slot is None)
                ==> outcome == CommandOutcome::Remap(RemapOutcome::NotFound)
            &&& new_slot < num_slots && i < controllers.len() && controllers[i].slot == Some(
                new_slot,
            ) ==> outcome == CommandOutcome::Remap(RemapOutcome::SameSlot)
        }),
{
    let entries = models::entries_of(controllers);
    let has_id = |e: SlotEntry| e.id == id;
    search::lemma_first_from(entries, has_id, 0);
    assert forall|j: int| 0 <= j < i implies !has_id(#[trigger] entries[j]) by {
        assert(controllers[j].id != id);
    }
    if i < controllers.len() {
        assert(has_id(entries[i]));
        search::lemma_is_first(entries, has_id, i);
    } else {
        search::lemma_is_absent(entries, has_id);
    }
    let after = remap_for(controllers, num_slots, id, new_slot).0;
    assert(after == entries);
    assert(models::with_entry_slots(controllers, entries) =~= controllers);
}

/// To identify a pad it is played twice for a tenth of a second, a tenth apart;
/// any other vibration is played once for its duration.
pub proof fn law_vibration_pattern(v: ManualVibration)
    ensures
        ({
            let steps = vibration_steps(v);
            &&& steps[0] == VibrationStep::Play
            &&& steps[2] == VibrationStep::Stop
            &&& !v.identify ==> steps.len() == 3 && steps[1] == VibrationStep::Wait(v.duration_ms)
            &&& v.identify ==> {
                &&& steps.len() == 7
                &&& steps[1] == VibrationStep::Wait(100)
                &&& steps[3] == VibrationStep::Wait(100)
                &&& steps[4] == VibrationStep::Play
                &&& steps[5] == VibrationStep::Wait(100)
                &&& steps[6] == VibrationStep::Stop
            }
        }),
{
}

/// The mark is set on the first controller of that number and on no other, and
/// nothing else changes.
pub proof fn law_vibration_mark(
    controllers: Seq<ControllerState>,
    id: usize,
    on: bool,
    i: int,
    k: int,
)
    requires
        0 <= i <= controllers.len(),
        i < controllers.len() ==> controllers[i].id == id,
        forall|j: int| 0 <= j < i ==> (#[trigger] controllers[j]).id != id,
        0 <= k < controllers.len(),
    ensures
        ({
            let after = with_vibrating(controllers, id, on);
            &&& after.len() == controllers.len()
            &&& k != i ==> after[k] == controllers[k]
            &&& k == i ==> {
                &&& after[k].is_vibrating == on
                &&& after[k].id == controllers[k].id
                &&& after[k].slot == controllers[k].slot
                &&& after[k].name == controllers[k].name
                &&& after[k].battery == controllers[k].battery
                &&& after[k].input == controllers[k].input
            }
        }),
{
    bridge::law_first_found(controllers, 0, id);
}

} // verus!
