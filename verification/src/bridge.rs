//! Slot assignment and polling.
//!
//! The bridge keeps the list of live controllers. Each gamepad that turns up
//! gets the lowest free slot; at every poll each slot gets the input of its
//! controller, or that of an idle pad.

use vstd::prelude::*;

use crate::mapping;
use crate::mapping::{Mapping, PadState};
use crate::models;
use crate::models::{ControllerState, SwitchInput, WebState, XboxInput};
use crate::search;
use crate::switch_proto;
use crate::text;
use crate::text::append_number;

verus! {

/// Power state of a gamepad; battery levels in percent.
#[derive(Clone, Copy, Debug, PartialEq, Eq, Structural)]
pub enum PowerInfo {
    Unknown,
    Wired,
    Discharging(u8),
    Charging(u8),
    Charged,
}

/// The Switch battery level, 0 (empty) to 4 (full), of a percentage.
pub open spec fn level_of(pct: u8) -> u8 {
    if pct >= 70 {
        4
    } else if pct >= 50 {
        3
    } else if pct >= 30 {
        2
    } else if pct >= 10 {
        1
    } else {
        0
    }
}

/// Convert battery percentage (0-100) to Switch 5-level scale (0-4).
pub fn percentage_to_level(pct: u8) -> (level: u8)
    ensures
        level == level_of(pct),
{
    if pct >= 70 {
        4
    } else if pct >= 50 {
        3
    } else if pct >= 30 {
        2
    } else if pct >= 10 {
        1
    } else {
        0
    }
}

/// The Switch battery byte: level from bit 5 up, `0x10` while charging, and
/// always `0x01`, since the gadget is powered by the host.
pub open spec fn battery_of(power: PowerInfo) -> u8 {
    match power {
        PowerInfo::Discharging(pct) => (0x20 * level_of(pct) + 0x01) as u8,
        PowerInfo::Charging(pct) => (0x20 * level_of(pct) + 0x10 + 0x01) as u8,
        PowerInfo::Charged => 0x91,
        PowerInfo::Wired => 0x81,
        PowerInfo::Unknown => 0x81,
    }
}

/// Compose the Switch battery byte from an Xbox power state.
pub fn battery_byte(power: PowerInfo) -> (byte: u8)
    ensures
        byte == battery_of(power),
{
    match power {
        PowerInfo::Discharging(pct) => 0x20 * percentage_to_level(pct) + 0x01,
        PowerInfo::Charging(pct) => 0x20 * percentage_to_level(pct) + 0x10 + 0x01,
        PowerInfo::Charged => 0x20 * 4 + 0x10 + 0x01,
        PowerInfo::Wired | PowerInfo::Unknown => 0x81,
    }
}

/// The battery byte always says powered by the host, says charging exactly
/// while charging or charged, and holds a level from 0 to 4 that rises with
/// the percentage.
pub proof fn law_battery_byte(power: PowerInfo, pct: u8, more: u8)
    requires
        pct <= more,
    ensures
        battery_of(power) % 2 == 1,
        (battery_of(power) / 0x10) % 2 == 1 <==> power is Charging || power is Charged,
        battery_of(power) / 0x20 <= 4,
        battery_of(PowerInfo::Discharging(pct)) <= battery_of(PowerInfo::Discharging(more)),
        battery_of(PowerInfo::Charging(pct)) == battery_of(PowerInfo::Discharging(pct)) + 0x10,
{
}

/// The slot of each controller.
pub open spec fn slots_of(controllers: Seq<ControllerState>) -> Seq<Option<usize>> {
    Seq::new(controllers.len(), |i: int| controllers[i].slot)
}

/// Index of the controller on `slot`, or the number of controllers.
pub open spec fn holder(controllers: Seq<ControllerState>, slot: usize) -> int {
    search::first_index(slots_of(controllers), |s: Option<usize>| s == Some(slot))
}

/// Index of the controller `id`, or the number of controllers.
pub open spec fn position(controllers: Seq<ControllerState>, id: usize) -> int {
    search::first_index(controllers, |c: ControllerState| c.id == id)
}

/// Controller `id` is on the list.
pub open spec fn listed(controllers: Seq<ControllerState>, id: usize) -> bool {
    exists|i: int| 0 <= i < controllers.len() && (#[trigger] controllers[i]).id == id
}

/// Some controller is on `slot`.
pub open spec fn occupied(controllers: Seq<ControllerState>, slot: usize) -> bool {
    exists|i: int| 0 <= i < controllers.len() && (#[trigger] controllers[i]).slot == Some(slot)
}

/// `slot` is free and every slot below it is not.
pub open spec fn is_lowest_free(
    controllers: Seq<ControllerState>,
    num_slots: usize,
    slot: usize,
) -> bool {
    &&& slot < num_slots
    &&& !occupied(controllers, slot)
    &&& forall|s: usize| s < slot ==> #[trigger] occupied(controllers, s)
}

/// No slot is free.
pub open spec fn all_taken(controllers: Seq<ControllerState>, num_slots: usize) -> bool {
    forall|s: usize| s < num_slots ==> #[trigger] occupied(controllers, s)
}

/// Index of the controller on a slot.
pub(crate) fn find_holder(controllers: &[ControllerState], slot: usize) -> (found: Option<usize>)
    ensures
        match found {
            Some(i) => i < controllers@.len() && i == holder(controllers@, slot)
                && controllers@[i as int].slot == Some(slot),
            None => holder(controllers@, slot) == controllers@.len() && !occupied(
                controllers@,
                slot,
            ),
        },
{
    let ghost on_slot = |s: Option<usize>| s == Some(slot);
    let ghost slots = slots_of(controllers@);
    let mut i: usize = 0;
    while i < controllers.len()
        invariant
            i <= controllers@.len(),
            slots == slots_of(controllers@),
            on_slot == (|s: Option<usize>| s == Some(slot)),
            search::first_index(slots, on_slot) == search::first_from(slots, on_slot, i as int),
            forall|j: int| 0 <= j < i ==> (#[trigger] controllers@[j]).slot != Some(slot),
        decreases controllers@.len() - i,
    {
        if controllers[i].slot == Some(slot) {
            return Some(i);
        }
        i += 1;
    }
    None
}

/// Index of a controller.
pub(crate) fn find_id(controllers: &[ControllerState], id: usize) -> (found: Option<usize>)
    ensures
        match found {
            Some(i) => i < controllers@.len() && i == position(controllers@, id)
                && controllers@[i as int].id == id,
            None => position(controllers@, id) == controllers@.len() && !listed(controllers@, id),
        },
{
    let ghost has_id = |c: ControllerState| c.id == id;
    let mut i: usize = 0;
    while i < controllers.len()
        invariant
            i <= controllers@.len(),
            has_id == (|c: ControllerState| c.id == id),
            search::first_index(controllers@, has_id) == search::first_from(
                controllers@,
                has_id,
                i as int,
            ),
            forall|j: int| 0 <= j < i ==> (#[trigger] controllers@[j]).id != id,
        decreases controllers@.len() - i,
    {
        if controllers[i].id == id {
            return Some(i);
        }
        i += 1;
    }
    None
}

/// Whether some controller is on `slot`.
pub fn slot_occupied(controllers: &[ControllerState], slot: usize) -> (taken: bool)
    ensures
        taken == occupied(controllers@, slot),
{
    find_holder(controllers, slot).is_some()
}

/// The lowest slot that no controller is on.
pub fn lowest_free_slot(controllers: &[ControllerState], num_slots: usize) -> (free: Option<usize>)
    ensures
        match free {
            Some(slot) => is_lowest_free(controllers@, num_slots, slot),
            None => all_taken(controllers@, num_slots),
        },
{
    let mut s: usize = 0;
    while s < num_slots
        invariant
            s <= num_slots,
            forall|t: usize| t < s ==> #[trigger] occupied(controllers@, t),
        decreases num_slots - s,
    {
        if !slot_occupied(controllers, s) {
            return Some(s);
        }
        s += 1;
    }
    None
}

/// What became of a gamepad that turned up.
#[derive(Clone, Copy, Debug, PartialEq, Eq, Structural)]
pub enum Attach {
    /// It was on the list already.
    Known,
    /// No slot is free for it.
    NoFreeSlot,
    /// It got this slot.
    Slot(usize),
}

/// A controller that was just put on a slot.
pub open spec fn is_new_controller(
    c: ControllerState,
    id: usize,
    slot: usize,
    name: Seq<char>,
) -> bool {
    &&& c.id == id
    &&& c.slot == Some(slot)
    &&& c.name@ == name
    &&& c.battery == 0
    &&& !c.is_vibrating
    &&& c.input is None
}

/// The list with a new controller behind it.
pub open spec fn grew_by(
    before: Seq<ControllerState>,
    after: Seq<ControllerState>,
    id: usize,
    slot: usize,
    name: Seq<char>,
) -> bool {
    &&& after.len() == before.len() + 1
    &&& after.drop_last() == before
    &&& is_new_controller(after.last(), id, slot, name)
}

/// Outcome of a gamepad turning up: an unknown one gets the lowest free slot.
pub open spec fn attached(
    before: Seq<ControllerState>,
    after: Seq<ControllerState>,
    num_slots: usize,
    id: usize,
    name: Seq<char>,
    result: Attach,
) -> bool {
    match result {
        Attach::Known => listed(before, id) && after == before,
        Attach::NoFreeSlot => !listed(before, id) && all_taken(before, num_slots) && after
            == before,
        Attach::Slot(slot) => !listed(before, id) && is_lowest_free(before, num_slots, slot)
            && grew_by(before, after, id, slot, name),
    }
}

/// Put a gamepad that is there at start-up on the lowest free slot.
pub fn attach(ws: &mut WebState, num_slots: usize, id: usize, name: &str) -> (result: Attach)
    ensures
        attached(
            old(ws).controllers@,
            final(ws).controllers@,
            num_slots,
            id,
            name@,
            result,
        ),
        final(ws).status == old(ws).status,
{
    if find_id(&ws.controllers, id).is_some() {
        return Attach::Known;
    }
    match lowest_free_slot(&ws.controllers, num_slots) {
        Some(slot) => {
            ws.controllers.push(
                ControllerState {
                    id,
                    slot: Some(slot),
                    name: name.to_owned(),
                    battery: 0,
                    is_vibrating: false,
                    input: None,
                },
            );
            assert(ws.controllers@.drop_last() =~= old(ws).controllers@);
            Attach::Slot(slot)
        },
        None => Attach::NoFreeSlot,
    }
}

/// The status line after a gamepad connected.
pub open spec fn connected_text(name: Seq<char>, slot: usize) -> Seq<char> {
    name + " connected (slot "@ + text::decimal((slot + 1) as nat) + ")"@
}

/// Put a gamepad that connects on the lowest free slot, and say so.
pub fn connect(ws: &mut WebState, num_slots: usize, id: usize, name: &str) -> (result: Attach)
    ensures
        attached(
            old(ws).controllers@,
            final(ws).controllers@,
            num_slots,
            id,
            name@,
            result,
        ),
        match result {
            Attach::Slot(slot) => final(ws).status@ == connected_text(name@, slot),
            _ => final(ws).status == old(ws).status,
        },
{
    let result = attach(ws, num_slots, id, name);
    if let Attach::Slot(slot) = result {
        let mut status = name.to_owned();
        status.append(" connected (slot ");
        append_number(&mut status, slot as u64 + 1);
        status.append(")");
        ws.status = status;
    }
    result
}

/// The status line after a gamepad disconnected.
pub open spec fn disconnected_text(name: Seq<char>) -> Seq<char> {
    name + " disconnected"@
}

/// Take a gamepad that disconnects off the list. Returns the slot it leaves,
/// or nothing when it was not on the list.
pub fn disconnect(ws: &mut WebState, id: usize, name: &str) -> (freed: Option<Option<usize>>)
    ensures
        match freed {
            Some(slot) => {
                let before = old(ws).controllers@;
                let i = position(before, id);
                &&& 0 <= i < before.len()
                &&& slot == before[i].slot
                &&& final(ws).controllers@ == before.remove(i)
                &&& final(ws).status@ == disconnected_text(name@)
            },
            None => position(old(ws).controllers@, id) == old(ws).controllers@.len() && !listed(
                old(ws).controllers@,
                id,
            ) && *final(ws) == *old(ws),
        },
{
    match find_id(&ws.controllers, id) {
        Some(i) => {
            let controller = ws.controllers.remove(i);
            let mut status = name.to_owned();
            status.append(" disconnected");
            ws.status = status;
            Some(controller.slot)
        },
        None => None,
    }
}

/// A gamepad that turns up keeps the controllers distinct, the slots distinct
/// and the slots in range, each on its own.
pub proof fn law_attach_keeps_places(
    before: Seq<ControllerState>,
    after: Seq<ControllerState>,
    num_slots: usize,
    id: usize,
    name: Seq<char>,
    result: Attach,
)
    requires
        attached(before, after, num_slots, id, name, result),
    ensures
        ({
            let entries = models::entries_of(before);
            let now = models::entries_of(after);
            &&& models::ids_distinct(entries) ==> models::ids_distinct(now)
            &&& models::slots_distinct(entries) ==> models::slots_distinct(now)
            &&& models::slots_in_range(entries, num_slots) ==> models::slots_in_range(
                now,
                num_slots,
            )
        }),
{
    if let Attach::Slot(slot) = result {
        let old_entries = models::entries_of(before);
        let entries = models::entries_of(after);
        assert forall|i: int| 0 <= i < before.len() implies #[trigger] entries[i]
            == old_entries[i] && entries[i].id != id && entries[i].slot != Some(slot) by {
            assert(after[i] == after.drop_last()[i]);
            assert(before[i].id != id);
            assert(before[i].slot != Some(slot));
        }
        assert(entries[before.len() as int].slot == Some(slot));
    }
}

/// A gamepad that leaves keeps the controllers distinct, the slots distinct
/// and the slots in range, each on its own. With distinct slots it frees its
/// slot; with distinct controllers it is off the list.
pub proof fn law_disconnect_keeps_places(
    before: Seq<ControllerState>,
    num_slots: usize,
    i: int,
)
    requires
        0 <= i < before.len(),
    ensures
        ({
            let entries = models::entries_of(before);
            let after = before.remove(i);
            let now = models::entries_of(after);
            &&& models::ids_distinct(entries) ==> models::ids_distinct(now) && !listed(
                after,
                before[i].id,
            )
            &&& models::slots_distinct(entries) ==> models::slots_distinct(now) && (
            before[i].slot matches Some(slot) ==> !occupied(after, slot))
            &&& models::slots_in_range(entries, num_slots) ==> models::slots_in_range(
                now,
                num_slots,
            )
        }),
{
    let old_entries = models::entries_of(before);
    let after = before.remove(i);
    let entries = models::entries_of(after);
    assert forall|j: int| 0 <= j < after.len() implies #[trigger] entries[j] == old_entries[if j < i {
        j
    } else {
        j + 1
    }] by {}
    assert forall|j: int| 0 <= j < after.len() implies {
        &&& models::ids_distinct(old_entries) ==> (#[trigger] after[j]).id != before[i].id
        &&& models::slots_distinct(old_entries) && before[i].slot is Some ==> after[j].slot
            != before[i].slot
    } by {
        let k = if j < i {
            j
        } else {
            j + 1
        };
        assert(after[j] == before[k]);
        assert(old_entries[k].id == before[k].id && old_entries[i].id == before[i].id);
        assert(old_entries[k].slot == before[k].slot && old_entries[i].slot == before[i].slot);
    }
}

/// A gamepad that connects and disconnects again leaves the list as it was.
pub proof fn law_connect_disconnect(
    before: Seq<ControllerState>,
    after: Seq<ControllerState>,
    num_slots: usize,
    id: usize,
    name: Seq<char>,
    slot: usize,
)
    requires
        attached(before, after, num_slots, id, name, Attach::Slot(slot)),
    ensures
        position(after, id) == before.len(),
        after.remove(position(after, id)) == before,
{
    assert forall|j: int| 0 <= j < before.len() implies (#[trigger] after[j]).id != id by {
        assert(after[j] == after.drop_last()[j]);
        assert(before[j].id != id);
    }
    search::lemma_is_first(after, |c: ControllerState| c.id == id, before.len() as int);
    assert(after.remove(before.len() as int) =~= after.drop_last());
}

/// Controllers that turn up one after the other on an empty list take the
/// slots in order: with `n` controllers on the first `n` slots, the next gets
/// slot `n`, and once all slots are taken it gets none.
pub proof fn law_slots_in_order(
    controllers: Seq<ControllerState>,
    num_slots: usize,
    slot: usize,
)
    requires
        forall|i: int|
            0 <= i < controllers.len() ==> (#[trigger] controllers[i]).slot == Some(i as usize),
        controllers.len() <= num_slots,
    ensures
        is_lowest_free(controllers, num_slots, slot) <==> slot == controllers.len() && slot
            < num_slots,
        all_taken(controllers, num_slots) <==> controllers.len() == num_slots,
{
    let n = controllers.len() as usize;
    assert forall|s: usize| #[trigger] occupied(controllers, s) <==> s < n by {
        if s < n {
            assert(controllers[s as int].slot == Some(s));
        }
    }
    if all_taken(controllers, num_slots) && n < num_slots {
        assert(occupied(controllers, n));
    }
    if is_lowest_free(controllers, num_slots, slot) && slot > n {
        assert(occupied(controllers, n));
    }
}

/// A reading of one gamepad.
#[derive(Debug)]
pub struct PadReading {
    pub pad: PadState,
    pub power: PowerInfo,
    pub name: String,
}

/// The Switch input of a reading.
pub open spec fn input_of(reading: PadReading) -> SwitchInput {
    SwitchInput { battery: battery_of(reading.power), ..mapping::mapped(reading.pad) }
}

/// A controller with its reading mirrored in.
pub open spec fn mirrored(c: ControllerState, reading: PadReading) -> ControllerState {
    ControllerState {
        battery: battery_of(reading.power),
        name: reading.name,
        input: Some(mapping::shown(reading.pad)),
        ..c
    }
}

/// The `i`th controller is the one polled for its slot.
pub open spec fn is_polled(controllers: Seq<ControllerState>, num_slots: int, i: int) -> bool {
    controllers[i].slot matches Some(slot) && slot < num_slots && holder(controllers, slot) == i
}

/// The controllers after the slots below `num_slots` were polled.
pub open spec fn after_poll(
    controllers: Seq<ControllerState>,
    readings: Seq<PadReading>,
    num_slots: int,
) -> Seq<ControllerState> {
    Seq::new(
        controllers.len(),
        |i: int|
            if is_polled(controllers, num_slots, i) {
                mirrored(controllers[i], readings[i])
            } else {
                controllers[i]
            },
    )
}

/// What is sent to `slot`: the input of the controller on it, or that of an
/// idle slot.
pub open spec fn slot_input(
    controllers: Seq<ControllerState>,
    readings: Seq<PadReading>,
    slot: usize,
) -> SwitchInput {
    let i = holder(controllers, slot);
    if 0 <= i < controllers.len() {
        input_of(readings[i])
    } else {
        models::neutral()
    }
}

/// Polling one more slot mirrors the reading of the controller on it.
proof fn lemma_poll_step(
    controllers: Seq<ControllerState>,
    readings: Seq<PadReading>,
    slot: usize,
)
    ensures
        ({
            let here = after_poll(controllers, readings, slot as int);
            let next = after_poll(controllers, readings, slot + 1);
            let k = holder(controllers, slot);
            &&& slots_of(here) == slots_of(controllers)
            &&& 0 <= k <= controllers.len()
            &&& k == controllers.len() ==> next == here
            &&& k < controllers.len() ==> here[k] == controllers[k] && next == here.update(
                k,
                mirrored(controllers[k], readings[k]),
            )
        }),
{
    let here = after_poll(controllers, readings, slot as int);
    let next = after_poll(controllers, readings, slot + 1);
    let slots = slots_of(controllers);
    let on_slot = |s: Option<usize>| s == Some(slot);
    search::lemma_first_from(slots, on_slot, 0);
    let k = holder(controllers, slot);
    assert(slots_of(here) =~= slots);
    assert forall|i: int| 0 <= i < controllers.len() && i != k implies #[trigger] next[i]
        == here[i] by {
        if controllers[i].slot == Some(slot) {
            assert(holder(controllers, slot) != i);
        }
    }
    if k < controllers.len() {
        assert(controllers[k].slot == slots[k]);
        assert(next =~= here.update(k, mirrored(controllers[k], readings[k])));
    } else {
        assert(next =~= here);
    }
}

/// Mirror a reading into its controller, and return its Switch input.
fn take_reading(c: &mut ControllerState, reading: &PadReading) -> (input: SwitchInput)
    ensures
        *final(c) == mirrored(*old(c), *reading),
        input == input_of(*reading),
{
    let battery: u8 = battery_byte(reading.power);
    let mut input = Mapping::new().poll(&reading.pad);
    input.battery = battery;
    c.battery = battery;
    c.name = reading.name.clone();
    c.input = Some(XboxInput::from_gamepad(&reading.pad));
    input
}

/// Turn one reading per controller into one input per slot, and mirror the
/// readings into the list.
pub fn poll_slots(ws: &mut WebState, num_slots: usize, readings: &Vec<PadReading>) -> (inputs: Vec<
    SwitchInput,
>)
    requires
        readings@.len() == old(ws).controllers@.len(),
    ensures
        inputs@.len() == num_slots,
        forall|s: int|
            0 <= s < num_slots ==> #[trigger] inputs@[s] == slot_input(
                old(ws).controllers@,
                readings@,
                s as usize,
            ),
        final(ws).controllers@ == after_poll(
            old(ws).controllers@,
            readings@,
            num_slots as int,
        ),
        final(ws).status == old(ws).status,
{
    let ghost before = ws.controllers@;
    let mut inputs: Vec<SwitchInput> = Vec::new();
    let mut slot: usize = 0;
    assert(ws.controllers@ =~= after_poll(before, readings@, 0));
    while slot < num_slots
        invariant
            slot <= num_slots,
            readings@.len() == before.len(),
            ws.controllers@.len() == before.len(),
            ws.status == old(ws).status,
            inputs@.len() == slot,
            forall|s: int|
                0 <= s < slot ==> #[trigger] inputs@[s] == slot_input(
                    before,
                    readings@,
                    s as usize,
                ),
            ws.controllers@ == after_poll(before, readings@, slot as int),
        decreases num_slots - slot,
    {
        proof {
            lemma_poll_step(before, readings@, slot);
        }
        let input = match find_holder(&ws.controllers, slot) {
            Some(i) => take_reading(&mut ws.controllers[i], &readings[i]),
            None => SwitchInput::neutral_input(),
        };
        inputs.push(input);
        slot += 1;
    }
    inputs
}

/// Polling changes no controller's number, slot or vibration mark.
pub proof fn law_poll_keeps_places(
    controllers: Seq<ControllerState>,
    readings: Seq<PadReading>,
    num_slots: int,
)
    ensures
        models::entries_of(after_poll(controllers, readings, num_slots)) == models::entries_of(
            controllers,
        ),
        forall|i: int|
            0 <= i < controllers.len() ==> (#[trigger] after_poll(
                controllers,
                readings,
                num_slots,
            )[i]).is_vibrating == controllers[i].is_vibrating,
{
    assert(models::entries_of(after_poll(controllers, readings, num_slots))
        =~= models::entries_of(controllers));
}

/// The controller on a slot is the only one on it.
pub proof fn lemma_sole_holder(controllers: Seq<ControllerState>, slot: usize, i: int)
    requires
        models::slots_distinct(models::entries_of(controllers)),
        0 <= i < controllers.len(),
        controllers[i].slot == Some(slot),
    ensures
        holder(controllers, slot) == i,
{
    let slots = slots_of(controllers);
    let on_slot = |s: Option<usize>| s == Some(slot);
    let entries = models::entries_of(controllers);
    assert(entries[i].slot == Some(slot));
    assert forall|j: int| 0 <= j < i implies !on_slot(#[trigger] slots[j]) by {
        assert(entries[j].slot == slots[j]);
    }
    search::lemma_is_first(slots, on_slot, i);
}

/// A slot that no controller is on reports the idle input, and a controller
/// on a slot of its own reaches exactly that slot.
pub proof fn law_slot_inputs(
    controllers: Seq<ControllerState>,
    readings: Seq<PadReading>,
    num_slots: usize,
    slot: usize,
    i: int,
)
    requires
        models::slots_distinct(models::entries_of(controllers)),
        readings.len() == controllers.len(),
        0 <= i < controllers.len(),
    ensures
        !occupied(controllers, slot) ==> slot_input(controllers, readings, slot)
            == models::neutral(),
        controllers[i].slot == Some(slot) ==> slot_input(controllers, readings, slot) == input_of(
            readings[i],
        ),
        controllers[i].slot == Some(slot) && slot < num_slots ==> is_polled(
            controllers,
            num_slots as int,
            i,
        ),
{
    if !occupied(controllers, slot) {
        lemma_free_slot_idles(controllers, readings, slot);
    }
    if controllers[i].slot == Some(slot) {
        lemma_sole_holder(controllers, slot, i);
    }
}

/// A slot that no controller is on reports the idle input.
proof fn lemma_free_slot_idles(
    controllers: Seq<ControllerState>,
    readings: Seq<PadReading>,
    slot: usize,
)
    requires
        !occupied(controllers, slot),
    ensures
        slot_input(controllers, readings, slot) == models::neutral(),
{
    let slots = slots_of(controllers);
    search::lemma_first_from(slots, |s: Option<usize>| s == Some(slot), 0);
    let k = holder(controllers, slot);
    if k < controllers.len() {
        assert(controllers[k].slot == slots[k]);
    }
}

/// When a pad leaves, its slot goes idle, and every other slot keeps its
/// input: the Switch sees no controller come or go.
pub proof fn law_leaving_idles_one_slot(
    controllers: Seq<ControllerState>,
    readings: Seq<PadReading>,
    i: int,
    slot: usize,
    other: usize,
)
    requires
        models::slots_distinct(models::entries_of(controllers)),
        readings.len() == controllers.len(),
        0 <= i < controllers.len(),
        controllers[i].slot == Some(slot),
        other != slot,
    ensures
        slot_input(controllers.remove(i), readings.remove(i), slot) == models::neutral(),
        slot_input(controllers.remove(i), readings.remove(i), other) == slot_input(
            controllers,
            readings,
            other,
        ),
{
    let rest = controllers.remove(i);
    let rest_readings = readings.remove(i);
    law_disconnect_keeps_places(controllers, 0, i);
    lemma_free_slot_idles(rest, rest_readings, slot);
    let slots = slots_of(controllers);
    let on_other = |s: Option<usize>| s == Some(other);
    search::lemma_first_from(slots, on_other, 0);
    let k = holder(controllers, other);
    if k < controllers.len() {
        assert(controllers[k].slot == slots[k]);
        let moved = if k < i {
            k
        } else {
            k - 1
        };
        assert(rest[moved] == controllers[k]);
        assert(rest_readings[moved] == readings[k]);
        lemma_sole_holder(rest, other, moved);
    } else {
        assert forall|j: int| 0 <= j < rest.len() implies (#[trigger] rest[j]).slot != Some(
            other,
        ) by {
            let source = if j < i {
                j
            } else {
                j + 1
            };
            assert(rest[j] == controllers[source]);
            assert(!on_other(slots[source]));
        }
        lemma_free_slot_idles(rest, rest_readings, other);
    }
}

/// What is pressed on a pad reaches the host through the slot that the pad is
/// on: the host reads the mapped buttons, the sticks and the pad's battery out
/// of the slot's report.
pub proof fn law_pad_reaches_host(
    controllers: Seq<ControllerState>,
    readings: Seq<PadReading>,
    slot: usize,
    i: int,
    count: u8,
)
    requires
        models::slots_distinct(models::entries_of(controllers)),
        readings.len() == controllers.len(),
        0 <= i < controllers.len(),
        controllers[i].slot == Some(slot),
    ensures
        ({
            let sent = slot_input(controllers, readings, slot);
            let read = switch_proto::reported_input(switch_proto::input_report_bytes(count, sent));
            let pad = readings[i].pad;
            read == SwitchInput {
                battery: battery_of(readings[i].power),
                left_stick: switch_proto::clamped_stick(pad.left_stick),
                right_stick: switch_proto::clamped_stick(pad.right_stick),
                ..mapping::mapped(pad)
            }
        }),
{
    lemma_sole_holder(controllers, slot, i);
    switch_proto::law_report_round_trip(count, slot_input(controllers, readings, slot));
}

/// The battery level goes up by one at 10, 30, 50 and 70 percent, and nowhere
/// else.
pub proof fn law_level_thresholds(pct: u8)
    ensures
        level_of(pct) == (if pct >= 10 { 1int } else { 0 }) + (if pct >= 30 { 1int } else { 0 }) + (
        if pct >= 50 { 1int } else { 0 }) + (if pct >= 70 { 1int } else { 0 }),
{
}

/// The battery byte by its parts: the level in the three top bits, full for a
/// pad that is charged, wired or says nothing; then the charging bit, three
/// zero bits, and the bit that stands for power from the host.
pub proof fn law_battery_parts(power: PowerInfo)
    ensures
        battery_of(power) / 32 == match power {
            PowerInfo::Discharging(pct) => level_of(pct) as int,
            PowerInfo::Charging(pct) => level_of(pct) as int,
            PowerInfo::Charged => 4,
            PowerInfo::Wired => 4,
            PowerInfo::Unknown => 4,
        },
        battery_of(power) % 32 == match power {
            PowerInfo::Charging(pct) => 17int,
            PowerInfo::Charged => 17,
            _ => 1,
        },
{
}

/// The controller on a slot is the first on the list that is on it, and the
/// controller of a number the first that has it. Where there is none, the
/// search ends behind the list.
pub proof fn law_first_found(controllers: Seq<ControllerState>, slot: usize, id: usize)
    ensures
        ({
            let k = holder(controllers, slot);
            &&& 0 <= k <= controllers.len()
            &&& k < controllers.len() ==> controllers[k].slot == Some(slot)
            &&& forall|j: int| 0 <= j < k ==> (#[trigger] controllers[j]).slot != Some(slot)
        }),
        ({
            let k = position(controllers, id);
            &&& 0 <= k <= controllers.len()
            &&& k < controllers.len() ==> controllers[k].id == id
            &&& forall|j: int| 0 <= j < k ==> (#[trigger] controllers[j]).id != id
        }),
{
    let slots = slots_of(controllers);
    let on_slot = |s: Option<usize>| s == Some(slot);
    let has_id = |c: ControllerState| c.id == id;
    search::lemma_first_from(slots, on_slot, 0);
    search::lemma_first_from(controllers, has_id, 0);
    let k = holder(controllers, slot);
    if k < controllers.len() {
        assert(on_slot(slots[k]));
    }
    assert forall|j: int| 0 <= j < k implies (#[trigger] controllers[j]).slot != Some(slot) by {
        assert(!on_slot(slots[j]));
    }
    let p = position(controllers, id);
    if p < controllers.len() {
        assert(has_id(controllers[p]));
    }
    assert forall|j: int| 0 <= j < p implies (#[trigger] controllers[j]).id != id by {
        assert(!has_id(controllers[j]));
    }
}

/// A gamepad that turns up: one that is on the list stays as it is; one that
/// is not gets a place behind all others, on a slot that nobody is on and below
/// which every slot is taken; it gets none exactly when some controller is on
/// each slot.
pub proof fn law_attach_outcomes(
    before: Seq<ControllerState>,
    after: Seq<ControllerState>,
    num_slots: usize,
    id: usize,
    name: Seq<char>,
    result: Attach,
    other: usize,
)
    requires
        attached(before, after, num_slots, id, name, result),
    ensures
        result == Attach::Known <==> exists|i: int|
            0 <= i < before.len() && (#[trigger] before[i]).id == id,
        result == Attach::NoFreeSlot && other < num_slots ==> exists|i: int|
            0 <= i < before.len() && (#[trigger] before[i]).slot == Some(other),
        !(result is Slot) ==> after == before,
        result matches Attach::Slot(slot) ==> {
            &&& slot < num_slots
            &&& forall|i: int| 0 <= i < before.len() ==> (#[trigger] before[i]).slot != Some(slot)
            &&& other < slot ==> exists|i: int|
                0 <= i < before.len() && (#[trigger] before[i]).slot == Some(other)
            &&& after.len() == before.len() + 1
            &&& forall|i: int| 0 <= i < before.len() ==> #[trigger] after[i] == before[i]
            &&& after.last().id == id
            &&& after.last().slot == Some(slot)
            &&& after.last().name@ == name
            &&& after.last().battery == 0
            &&& !after.last().is_vibrating
            &&& after.last().input is None
        },
{
    if result is NoFreeSlot && other < num_slots {
        assert(occupied(before, other));
    }
    if let Attach::Slot(slot) = result {
        if other < slot {
            assert(occupied(before, other));
        }
        assert forall|i: int| 0 <= i < before.len() implies #[trigger] after[i] == before[i] by {
            assert(after[i] == after.drop_last()[i]);
        }
    }
}

/// A pad that is not on the list gets a slot exactly when one is free.
pub proof fn law_free_slot_is_given(
    before: Seq<ControllerState>,
    after: Seq<ControllerState>,
    num_slots: usize,
    id: usize,
    name: Seq<char>,
    result: Attach,
    free: usize,
)
    requires
        attached(before, after, num_slots, id, name, result),
        free < num_slots,
        forall|i: int| 0 <= i < before.len() ==> (#[trigger] before[i]).slot != Some(free),
        forall|i: int| 0 <= i < before.len() ==> (#[trigger] before[i]).id != id,
    ensures
        result matches Attach::Slot(slot) && slot <= free,
{
    assert(!occupied(before, free));
}

/// The status lines: the pad's name comes first; after a connect a number
/// stands between " connected (slot " and the closing bracket, one above the
/// slot.
pub proof fn law_status_texts(name: Seq<char>, slot: usize)
    ensures
        ({
            let line = connected_text(name, slot);
            let n = name.len() as int;
            &&& line.len() > n + 18
            &&& line.take(n) == name
            &&& line.subrange(n, n + 17) == " connected (slot "@
            &&& text::parsed(line.subrange(n + 17, line.len() - 1), (slot + 1) as nat) == Some(
                (slot + 1) as nat,
            )
            &&& line.last() == ')'
        }),
        disconnected_text(name).take(name.len() as int) == name,
        disconnected_text(name).skip(name.len() as int) == " disconnected"@,
{
    reveal_strlit(" connected (slot ");
    reveal_strlit(")");
    let line = connected_text(name, slot);
    let n = name.len() as int;
    let number = text::decimal((slot + 1) as nat);
    text::law_decimal_digits((slot + 1) as nat);
    text::law_decimal_round_trip((slot + 1) as nat, (slot + 1) as nat);
    assert(line.take(n) =~= name);
    assert(line.subrange(n, n + 17) =~= " connected (slot "@);
    assert(line.subrange(n + 17, line.len() - 1) =~= number);
    assert(disconnected_text(name).take(n) =~= name);
    assert(disconnected_text(name).skip(n) =~= " disconnected"@);
}

/// What a poll changes: the first controller on each slot gets its pad's
/// battery, name and input, and keeps its number, slot and vibration mark;
/// every other controller stays as it is.
pub proof fn law_poll_mirrors(
    controllers: Seq<ControllerState>,
    readings: Seq<PadReading>,
    num_slots: int,
    i: int,
)
    requires
        0 <= i < controllers.len(),
    ensures
        ({
            let before = controllers[i];
            let after = after_poll(controllers, readings, num_slots)[i];
            let first = before.slot is Some && before.slot->0 < num_slots && forall|j: int|
                0 <= j < i ==> (#[trigger] controllers[j]).slot != before.slot;
            &&& after_poll(controllers, readings, num_slots).len() == controllers.len()
            &&& after.id == before.id
            &&& after.slot == before.slot
            &&& after.is_vibrating == before.is_vibrating
            &&& first ==> {
                &&& after.battery == battery_of(readings[i].power)
                &&& after.name == readings[i].name
                &&& after.input == Some(mapping::shown(readings[i].pad))
            }
            &&& !first ==> after == before
        }),
{
    if let Some(slot) = controllers[i].slot {
        law_first_found(controllers, slot, 0);
    }
}

/// What is sent to a slot: the battery and every button, stick and trigger of
/// the pad on it, each where the Switch expects it, or the idle input with full
/// battery where nobody is.
pub proof fn law_slot_sends_pad(
    controllers: Seq<ControllerState>,
    readings: Seq<PadReading>,
    slot: usize,
    i: int,
)
    requires
        0 <= i < controllers.len(),
        controllers[i].slot == Some(slot),
        forall|j: int| 0 <= j < i ==> (#[trigger] controllers[j]).slot != Some(slot),
    ensures
        ({
            let sent = slot_input(controllers, readings, slot);
            let pad = readings[i].pad;
            &&& sent.battery == battery_of(readings[i].power)
            &&& sent.a == pad.east && sent.b == pad.south && sent.x == pad.north && sent.y
                == pad.west
            &&& sent.l == pad.left_trigger && sent.r == pad.right_trigger
            &&& sent.zl == (pad.left_trigger2 || pad.left_z_pulled)
            &&& sent.zr == (pad.right_trigger2 || pad.right_z_pulled)
            &&& sent.minus == pad.select && sent.plus == pad.start && sent.home == pad.mode
            &&& !sent.capture
            &&& sent.left_stick_press == pad.left_thumb && sent.right_stick_press
                == pad.right_thumb
            &&& sent.dpad_up == pad.dpad_up && sent.dpad_down == pad.dpad_down
            &&& sent.dpad_left == pad.dpad_left && sent.dpad_right == pad.dpad_right
            &&& sent.left_stick == pad.left_stick && sent.right_stick == pad.right_stick
        }),
{
    law_first_found(controllers, slot, 0);
    mapping::law_buttons_keep_place(readings[i].pad);
}

/// A slot that nobody is on sends the idle input.
pub proof fn law_free_slot_sends_idle(
    controllers: Seq<ControllerState>,
    readings: Seq<PadReading>,
    slot: usize,
)
    requires
        forall|j: int| 0 <= j < controllers.len() ==> (#[trigger] controllers[j]).slot != Some(
            slot,
        ),
    ensures
        slot_input(controllers, readings, slot) == models::neutral(),
{
    lemma_free_slot_idles(controllers, readings, slot);
}

} // verus!
