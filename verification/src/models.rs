//! Data shared by the bridge, the gadget slots and the web page.

use vstd::prelude::*;

use crate::search;

verus! {

/// Largest value of a 12-bit stick coordinate.
pub const STICK_MAX: i32 = 4095;

/// 12-bit coordinate of a stick at rest.
pub const STICK_CENTER: i32 = 2048;

/// Most Pro Controller slots that one gadget exposes.
pub const MAX_SLOTS: usize = 8;

/// Slots exposed when nothing else is asked for.
pub const DEFAULT_SLOTS: usize = 4;

/// A stick position in 12-bit steps: 0 is left (or down), 4095 is right (or
/// up). Positions outside that range are clamped when a report is encoded.
#[derive(Clone, Copy, Debug, PartialEq, Eq, Structural)]
pub struct Stick {
    pub x: i32,
    pub y: i32,
}

impl Stick {
    pub fn new(x: i32, y: i32) -> (stick: Stick)
        ensures
            stick == (Stick { x, y }),
    {
        Stick { x, y }
    }
}

impl Default for Stick {
    /// A stick at rest.
    fn default() -> (stick: Stick)
        ensures
            stick == (Stick { x: STICK_CENTER, y: STICK_CENTER }),
    {
        Stick { x: STICK_CENTER, y: STICK_CENTER }
    }
}

/// The state to be written to a single Switch Pro Controller slot.
#[derive(Clone, Copy, Debug, PartialEq, Eq, Structural)]
pub struct SwitchInput {
    pub dpad_up: bool,
    pub dpad_down: bool,
    pub dpad_left: bool,
    pub dpad_right: bool,
    pub a: bool,
    pub b: bool,
    pub x: bool,
    pub y: bool,
    pub r: bool,
    pub zr: bool,
    pub l: bool,
    pub zl: bool,
    pub home: bool,
    pub plus: bool,
    pub minus: bool,
    pub capture: bool,
    pub left_stick_press: bool,
    pub right_stick_press: bool,
    pub left_stick: Stick,
    pub right_stick: Stick,
    /// Battery level: bits 7 to 5 are the capacity (0 empty, 4 full), bit 4
    /// is set while charging, bit 0 while powered by the host over USB.
    pub battery: u8,
}

/// No button pressed, both sticks at rest, the given battery byte.
pub open spec fn resting_input(battery: u8) -> SwitchInput {
    let center = Stick { x: STICK_CENTER, y: STICK_CENTER };
    SwitchInput {
        dpad_up: false,
        dpad_down: false,
        dpad_left: false,
        dpad_right: false,
        a: false,
        b: false,
        x: false,
        y: false,
        r: false,
        zr: false,
        l: false,
        zl: false,
        home: false,
        plus: false,
        minus: false,
        capture: false,
        left_stick_press: false,
        right_stick_press: false,
        left_stick: center,
        right_stick: center,
        battery,
    }
}

/// What an idle slot reports: at rest, full battery, powered over USB.
pub open spec fn neutral() -> SwitchInput {
    resting_input(0x81)
}

impl SwitchInput {
    /// The input of an idle slot.
    pub fn neutral_input() -> (input: SwitchInput)
        ensures
            input == neutral(),
    {
        let mut input = SwitchInput::default();
        input.battery = 0x81;
        input
    }
}

impl Default for SwitchInput {
    fn default() -> (input: SwitchInput)
        ensures
            input == resting_input(0),
    {
        SwitchInput {
            dpad_up: false,
            dpad_down: false,
            dpad_left: false,
            dpad_right: false,
            a: false,
            b: false,
            x: false,
            y: false,
            r: false,
            zr: false,
            l: false,
            zl: false,
            home: false,
            plus: false,
            minus: false,
            capture: false,
            left_stick_press: false,
            right_stick_press: false,
            left_stick: Stick::default(),
            right_stick: Stick::default(),
            battery: 0,
        }
    }
}

/// Rumble event raised by a gadget slot (from a Switch output report).
#[derive(Clone, Copy, Debug, PartialEq, Eq, Structural)]
pub struct Rumble {
    pub slot: usize,
    /// Left motor amplitude 0..255.
    pub left: u8,
    /// Right motor amplitude 0..255.
    pub right: u8,
}

/// A stick position in percent of its travel: 0 is left (or down), 100 is
/// right (or up).
#[derive(Clone, Copy, Debug, PartialEq, Eq, Structural)]
pub struct StickPercent {
    pub x: u32,
    pub y: u32,
}

/// Xbox input snapshot shown by the web tester (Xbox-native labels).
#[derive(Clone, Copy, Debug, PartialEq, Eq, Structural)]
pub struct XboxInput {
    pub a: bool,
    pub b: bool,
    pub x: bool,
    pub y: bool,
    pub lb: bool,
    pub rb: bool,
    /// Left trigger button pressed.
    pub lt: bool,
    /// Right trigger button pressed.
    pub rt: bool,
    /// Left trigger pull in percent.
    pub lt_value: u32,
    /// Right trigger pull in percent.
    pub rt_value: u32,
    pub view: bool,
    pub menu: bool,
    pub xbox: bool,
    pub left_stick_press: bool,
    pub right_stick_press: bool,
    pub dpad_up: bool,
    pub dpad_down: bool,
    pub dpad_left: bool,
    pub dpad_right: bool,
    pub left_stick: StickPercent,
    pub right_stick: StickPercent,
}

/// An Xbox pad at rest: nothing pressed, sticks at half travel.
pub open spec fn resting_pad() -> XboxInput {
    let center = StickPercent { x: 50, y: 50 };
    XboxInput {
        a: false,
        b: false,
        x: false,
        y: false,
        lb: false,
        rb: false,
        lt: false,
        rt: false,
        lt_value: 0,
        rt_value: 0,
        view: false,
        menu: false,
        xbox: false,
        left_stick_press: false,
        right_stick_press: false,
        dpad_up: false,
        dpad_down: false,
        dpad_left: false,
        dpad_right: false,
        left_stick: center,
        right_stick: center,
    }
}

impl Default for XboxInput {
    fn default() -> (input: XboxInput)
        ensures
            input == resting_pad(),
    {
        XboxInput {
            a: false,
            b: false,
            x: false,
            y: false,
            lb: false,
            rb: false,
            lt: false,
            rt: false,
            lt_value: 0,
            rt_value: 0,
            view: false,
            menu: false,
            xbox: false,
            left_stick_press: false,
            right_stick_press: false,
            dpad_up: false,
            dpad_down: false,
            dpad_left: false,
            dpad_right: false,
            left_stick: StickPercent { x: 50, y: 50 },
            right_stick: StickPercent { x: 50, y: 50 },
        }
    }
}

/// A live controller. Maintained by the bridge, rendered by the web page.
#[derive(Clone, Debug)]
pub struct ControllerState {
    /// Number under which the gamepad library knows the pad.
    pub id: usize,
    /// Assigned Switch slot (`None` when not assigned).
    pub slot: Option<usize>,
    pub name: String,
    /// Switch battery byte, as in `SwitchInput`.
    pub battery: u8,
    pub is_vibrating: bool,
    /// Latest Xbox input snapshot.
    pub input: Option<XboxInput>,
}

/// What the web page renders from.
#[derive(Clone, Debug)]
pub struct WebState {
    pub controllers: Vec<ControllerState>,
    pub status: String,
}

impl Default for WebState {
    fn default() -> (state: WebState)
        ensures
            state.controllers@ == Seq::<ControllerState>::empty(),
            state.status@ == Seq::<char>::empty(),
    {
        WebState { controllers: Vec::new(), status: String::new() }
    }
}

/// Result of a slot-remap attempt.
#[derive(Clone, Copy, Debug, PartialEq, Eq, Structural)]
pub enum RemapOutcome {
    NotFound,
    InvalidSlot,
    SameSlot,
    Moved,
    Swapped { old_slot: usize, new_slot: usize },
}

/// One controller's place: its number and its slot.
#[derive(Clone, Copy, Debug, PartialEq, Eq, Structural)]
pub struct SlotEntry {
    pub id: usize,
    pub slot: Option<usize>,
}

/// Commands sent from the web page to the bridge.
#[derive(Clone, Copy, Debug, PartialEq, Eq, Structural)]
pub enum Command {
    /// Remap a controller to a new slot.
    Remap { controller_id: usize, new_slot: usize },
    /// Send a quick vibration to identify a controller.
    Identify { controller_id: usize },
    /// Send vibration for a specific duration.
    Vibrate { controller_id: usize, duration_ms: u64 },
}

#[derive(Clone, Copy, Debug, PartialEq, Eq, Structural)]
pub enum AppState {
    Connected,
    Exiting,
}

impl AppState {
    pub fn is_exiting(&self) -> (exiting: bool)
        ensures
            exiting == (*self == AppState::Exiting),
    {
        matches!(*self, AppState::Exiting)
    }
}

/// Index of the first entry of controller `id`, or the length.
pub open spec fn id_index(entries: Seq<SlotEntry>, id: usize) -> int {
    search::first_index(entries, |e: SlotEntry| e.id == id)
}

/// Index of the first entry that holds `slot`, or the length.
pub open spec fn slot_index(entries: Seq<SlotEntry>, slot: usize) -> int {
    search::first_index(entries, |e: SlotEntry| e.slot == Some(slot))
}

/// `entries` with the entry at `i` moved to `slot`.
pub open spec fn with_slot(entries: Seq<SlotEntry>, i: int, slot: usize) -> Seq<SlotEntry> {
    entries.update(i, SlotEntry { id: entries[i].id, slot: Some(slot) })
}

/// The entries after a remap of controller `id` to `new_slot`, and the
/// outcome: the controller takes the slot, and a controller that held it
/// gets the slot left behind.
pub open spec fn remapped(
    entries: Seq<SlotEntry>,
    id: usize,
    new_slot: usize,
    num_slots: usize,
) -> (Seq<SlotEntry>, RemapOutcome) {
    let i = id_index(entries, id);
    let other = slot_index(entries, new_slot);
    if new_slot >= num_slots {
        (entries, RemapOutcome::InvalidSlot)
    } else if i == entries.len() {
        (entries, RemapOutcome::NotFound)
    } else {
        match entries[i].slot {
            None => (entries, RemapOutcome::NotFound),
            Some(old_slot) => if old_slot == new_slot {
                (entries, RemapOutcome::SameSlot)
            } else if other == entries.len() {
                (with_slot(entries, i, new_slot), RemapOutcome::Moved)
            } else {
                (
                    with_slot(with_slot(entries, other, old_slot), i, new_slot),
                    RemapOutcome::Swapped { old_slot, new_slot },
                )
            },
        }
    }
}

/// Remap `controller_id` to `new_slot`, swapping with the controller that
/// holds it.
pub fn apply_remap_entries(
    entries: &mut [SlotEntry],
    controller_id: usize,
    new_slot: usize,
    num_slots: usize,
) -> (outcome: RemapOutcome)
    ensures
        (final(entries)@, outcome) == remapped(
            old(entries)@,
            controller_id,
            new_slot,
            num_slots,
        ),
{
    if new_slot >= num_slots {
        return RemapOutcome::InvalidSlot;
    }
    let ghost has_id = |e: SlotEntry| e.id == controller_id;
    let ghost has_slot = |e: SlotEntry| e.slot == Some(new_slot);
    let mut idx: usize = 0;
    while idx < entries.len() && entries[idx].id != controller_id
        invariant
            entries@ == old(entries)@,
            idx <= entries@.len(),
            has_id == (|e: SlotEntry| e.id == controller_id),
            search::first_index(entries@, has_id) == search::first_from(entries@, has_id, idx as int),
        decreases entries@.len() - idx,
    {
        idx += 1;
    }
    if idx == entries.len() {
        return RemapOutcome::NotFound;
    }
    let old_slot = match entries[idx].slot {
        Some(slot) => slot,
        None => return RemapOutcome::NotFound,
    };
    if old_slot == new_slot {
        return RemapOutcome::SameSlot;
    }
    let mut other: usize = 0;
    while other < entries.len() && entries[other].slot != Some(new_slot)
        invariant
            entries@ == old(entries)@,
            other <= entries@.len(),
            has_slot == (|e: SlotEntry| e.slot == Some(new_slot)),
            search::first_index(entries@, has_slot) == search::first_from(entries@, has_slot, other as int),
        decreases entries@.len() - other,
    {
        other += 1;
    }
    if other < entries.len() {
        entries[other].slot = Some(old_slot);
        entries[idx].slot = Some(new_slot);
        return RemapOutcome::Swapped { old_slot, new_slot };
    }
    entries[idx].slot = Some(new_slot);
    RemapOutcome::Moved
}

/// The number and slot of each controller.
pub open spec fn entries_of(controllers: Seq<ControllerState>) -> Seq<SlotEntry> {
    Seq::new(
        controllers.len(),
        |i: int| SlotEntry { id: controllers[i].id, slot: controllers[i].slot },
    )
}

/// `controllers` with the slots that `entries` gives, and nothing else
/// changed.
pub open spec fn with_entry_slots(
    controllers: Seq<ControllerState>,
    entries: Seq<SlotEntry>,
) -> Seq<ControllerState> {
    Seq::new(
        controllers.len(),
        |i: int| ControllerState { slot: entries[i].slot, ..controllers[i] },
    )
}

/// Remap `controller_id` to `new_slot` over the live controllers.
pub fn apply_remap(
    controllers: &mut [ControllerState],
    controller_id: usize,
    new_slot: usize,
    num_slots: usize,
) -> (outcome: RemapOutcome)
    ensures
        ({
            let (entries, result) = remapped(
                entries_of(old(controllers)@),
                controller_id,
                new_slot,
                num_slots,
            );
            &&& outcome == result
            &&& final(controllers)@ == with_entry_slots(old(controllers)@, entries)
        }),
{
    let mut entries: Vec<SlotEntry> = Vec::new();
    let mut i: usize = 0;
    while i < controllers.len()
        invariant
            controllers@ == old(controllers)@,
            i <= controllers@.len(),
            entries@ == entries_of(controllers@).take(i as int),
        decreases controllers@.len() - i,
    {
        entries.push(SlotEntry { id: controllers[i].id, slot: controllers[i].slot });
        i += 1;
    }
    assert(entries@ == entries_of(controllers@));
    let outcome = apply_remap_entries(&mut entries, controller_id, new_slot, num_slots);
    let ghost target = with_entry_slots(old(controllers)@, entries@);
    proof {
        lemma_remap_shape(entries_of(controllers@), controller_id, new_slot, num_slots);
    }
    let mut k: usize = 0;
    while k < controllers.len()
        invariant
            controllers@.len() == old(controllers)@.len(),
            entries@.len() == controllers@.len(),
            k <= controllers@.len(),
            target == with_entry_slots(old(controllers)@, entries@),
            forall|j: int| 0 <= j < k ==> #[trigger] controllers@[j] == target[j],
            forall|j: int|
                k <= j < controllers@.len() ==> #[trigger] controllers@[j] == old(controllers)@[j],
        decreases controllers@.len() - k,
    {
        controllers[k].slot = entries[k].slot;
        k += 1;
    }
    assert(controllers@ == target);
    outcome
}

/// A remap keeps the controllers and their order.
pub proof fn lemma_remap_shape(
    entries: Seq<SlotEntry>,
    id: usize,
    new_slot: usize,
    num_slots: usize,
)
    ensures
        remapped(entries, id, new_slot, num_slots).0.len() == entries.len(),
        forall|i: int|
            0 <= i < entries.len() ==> (#[trigger] remapped(
                entries,
                id,
                new_slot,
                num_slots,
            ).0[i]).id == entries[i].id,
{
    search::lemma_first_from(entries, |e: SlotEntry| e.id == id, 0);
    search::lemma_first_from(entries, |e: SlotEntry| e.slot == Some(new_slot), 0);
}

/// No controller is listed twice.
pub open spec fn ids_distinct(entries: Seq<SlotEntry>) -> bool {
    forall|i: int, j: int|
        0 <= i < j < entries.len() ==> (#[trigger] entries[i]).id != (#[trigger] entries[j]).id
}

/// No slot is held twice.
pub open spec fn slots_distinct(entries: Seq<SlotEntry>) -> bool {
    forall|i: int, j: int|
        0 <= i < j < entries.len() && (#[trigger] entries[i]).slot is Some ==> entries[i].slot != (
        #[trigger] entries[j]).slot
}

/// Every slot held is one of the gadget's.
pub open spec fn slots_in_range(entries: Seq<SlotEntry>, num_slots: usize) -> bool {
    forall|i: int|
        0 <= i < entries.len() && (#[trigger] entries[i]).slot is Some ==> entries[i].slot->0
            < num_slots
}

/// No controller is listed twice, no slot is held twice, and every slot held
/// is one of the gadget's.
pub open spec fn places_ok(entries: Seq<SlotEntry>, num_slots: usize) -> bool {
    &&& ids_distinct(entries)
    &&& slots_distinct(entries)
    &&& slots_in_range(entries, num_slots)
}

/// Every remap keeps the controllers distinct, the slots distinct and the
/// slots in range, each on its own.
pub proof fn law_remap_keeps_places(
    entries: Seq<SlotEntry>,
    id: usize,
    new_slot: usize,
    num_slots: usize,
)
    ensures
        ({
            let after = remapped(entries, id, new_slot, num_slots).0;
            &&& ids_distinct(entries) ==> ids_distinct(after)
            &&& slots_distinct(entries) ==> slots_distinct(after)
            &&& slots_in_range(entries, num_slots) ==> slots_in_range(after, num_slots)
            &&& places_ok(entries, num_slots) ==> places_ok(after, num_slots)
        }),
{
    search::lemma_first_from(entries, |e: SlotEntry| e.id == id, 0);
    search::lemma_first_from(entries, |e: SlotEntry| e.slot == Some(new_slot), 0);
}

/// A remap that moves or swaps puts the controller on the slot asked for,
/// and every controller but it and the slot's holder stays where it was.
pub proof fn law_remap_lands(
    entries: Seq<SlotEntry>,
    id: usize,
    new_slot: usize,
    num_slots: usize,
)
    ensures
        ({
            let (after, outcome) = remapped(entries, id, new_slot, num_slots);
            let i = id_index(entries, id);
            &&& outcome is Moved || outcome is Swapped ==> 0 <= i < entries.len() && after[i].slot
                == Some(new_slot)
            &&& outcome is Moved || outcome is Swapped || after == entries
            &&& forall|k: int|
                0 <= k < entries.len() && k != i && (#[trigger] entries[k]).slot != Some(new_slot)
                    ==> after[k] == entries[k]
        }),
{
    search::lemma_first_from(entries, |e: SlotEntry| e.id == id, 0);
    search::lemma_first_from(entries, |e: SlotEntry| e.slot == Some(new_slot), 0);
}

/// What remapping back answers: a move is undone by
/// a move, a swap by the swap with the slots exchanged, and where nothing
/// happened the controller is still on its slot.
pub open spec fn undone(outcome: RemapOutcome) -> RemapOutcome {
    match outcome {
        RemapOutcome::Moved => RemapOutcome::Moved,
        RemapOutcome::Swapped { old_slot, new_slot } => RemapOutcome::Swapped {
            old_slot: new_slot,
            new_slot: old_slot,
        },
        _ => RemapOutcome::SameSlot,
    }
}

/// A remap is undone by remapping the same controller to the slot it left,
/// when that is a slot of the gadget that no other controller was on.
pub proof fn law_remap_back(
    entries: Seq<SlotEntry>,
    id: usize,
    new_slot: usize,
    num_slots: usize,
    old_slot: usize,
)
    requires
        id_index(entries, id) < entries.len(),
        entries[id_index(entries, id)].slot == Some(old_slot),
        old_slot < num_slots,
        forall|j: int|
            0 <= j < entries.len() && j != id_index(entries, id) ==> (#[trigger] entries[j]).slot
                != Some(old_slot),
    ensures
        ({
            let (after, outcome) = remapped(entries, id, new_slot, num_slots);
            remapped(after, id, old_slot, num_slots) == (entries, undone(outcome))
        }),
{
    let by_id = |e: SlotEntry| e.id == id;
    let by_old = |e: SlotEntry| e.slot == Some(old_slot);
    let i = id_index(entries, id);
    search::lemma_first_from(entries, by_id, 0);
    search::lemma_first_from(entries, |e: SlotEntry| e.slot == Some(new_slot), 0);
    let other = slot_index(entries, new_slot);
    let (after, outcome) = remapped(entries, id, new_slot, num_slots);
    assert(after.len() == entries.len());
    search::lemma_is_first(after, by_id, i);
    if outcome is Swapped {
        search::lemma_is_first(after, by_old, other);
    } else if outcome is Moved {
        search::lemma_is_absent(after, by_old);
    }
    assert(remapped(after, id, old_slot, num_slots).0 =~= entries);
}

/// Every assigned slot can be counted from one.
pub open spec fn slots_countable(controllers: Seq<ControllerState>) -> bool {
    forall|i: int|
        0 <= i < controllers.len() ==> ((#[trigger] controllers[i]).slot matches Some(s) ==> s
            < usize::MAX)
}

/// Slots of the gadget can be counted from one.
pub proof fn law_places_countable(controllers: Seq<ControllerState>, num_slots: usize)
    requires
        places_ok(entries_of(controllers), num_slots),
    ensures
        slots_countable(controllers),
{
    let entries = entries_of(controllers);
    assert forall|i: int| 0 <= i < controllers.len() implies ((
    #[trigger] controllers[i]).slot matches Some(s) ==> s < usize::MAX) by {
        assert(entries[i].slot == controllers[i].slot);
    }
}

/// A remap, told by the list alone. Controller `id` stands at `i`, which is
/// its first place on the list, and is on `old_slot`. Any other slot of the
/// gadget is always given to it. Of the controllers on that slot the first,
/// at `holder`, gets the slot left behind; when there is none, nobody else
/// moves. A slot beyond the gadget's changes nothing.
pub proof fn law_remap_carried_out(
    entries: Seq<SlotEntry>,
    id: usize,
    new_slot: usize,
    num_slots: usize,
    i: int,
    old_slot: usize,
    holder: int,
)
    requires
        0 <= i < entries.len(),
        entries[i].id == id,
        forall|j: int| 0 <= j < i ==> (#[trigger] entries[j]).id != id,
        entries[i].slot == Some(old_slot),
        0 <= holder <= entries.len(),
        forall|j: int| 0 <= j < holder ==> (#[trigger] entries[j]).slot != Some(new_slot),
        holder < entries.len() ==> entries[holder].slot == Some(new_slot),
    ensures
        ({
            let (after, outcome) = remapped(entries, id, new_slot, num_slots);
            let moves = new_slot < num_slots && new_slot != old_slot;
            &&& outcome == RemapOutcome::InvalidSlot <==> new_slot >= num_slots
            &&& outcome == RemapOutcome::SameSlot <==> new_slot < num_slots && new_slot == old_slot
            &&& outcome == RemapOutcome::Moved <==> moves && holder == entries.len()
            &&& outcome == (RemapOutcome::Swapped { old_slot, new_slot }) <==> moves && holder
                < entries.len()
            &&& after.len() == entries.len()
            &&& forall|k: int|
                0 <= k < entries.len() ==> {
                    &&& (#[trigger] after[k]).id == entries[k].id
                    &&& after[k].slot == if !moves {
                        entries[k].slot
                    } else if k == i {
                        Some(new_slot)
                    } else if k == holder {
                        Some(old_slot)
                    } else {
                        entries[k].slot
                    }
                }
        }),
{
    search::lemma_is_first(entries, |e: SlotEntry| e.id == id, i);
    let on_slot = |e: SlotEntry| e.slot == Some(new_slot);
    if holder < entries.len() {
        search::lemma_is_first(entries, on_slot, holder);
    } else {
        search::lemma_is_absent(entries, on_slot);
    }
}

/// A remap of a controller that is not on the list, or whose first place on
/// it is without a slot, changes nothing. The slot asked for is judged first.
pub proof fn law_remap_refused(
    entries: Seq<SlotEntry>,
    id: usize,
    new_slot: usize,
    num_slots: usize,
)
    requires
        forall|i: int|
            0 <= i < entries.len() && (#[trigger] entries[i]).id == id && (forall|j: int|
                0 <= j < i ==> (#[trigger] entries[j]).id != id) ==> entries[i].slot is None,
    ensures
        remapped(entries, id, new_slot, num_slots).0 == entries,
        remapped(entries, id, new_slot, num_slots).1 == if new_slot >= num_slots {
            RemapOutcome::InvalidSlot
        } else {
            RemapOutcome::NotFound
        },
{
    let has_id = |e: SlotEntry| e.id == id;
    search::lemma_first_from(entries, has_id, 0);
    let i = id_index(entries, id);
    if i < entries.len() {
        assert(has_id(entries[i]));
        assert forall|j: int| 0 <= j < i implies (#[trigger] entries[j]).id != id by {
            assert(!has_id(entries[j]));
        }
    }
}

/// Entries are the numbers and slots of the controllers, in order; giving
/// slots back changes the slots and nothing else.
pub proof fn law_entries_stand_for_controllers(
    controllers: Seq<ControllerState>,
    entries: Seq<SlotEntry>,
    i: int,
)
    requires
        0 <= i < controllers.len(),
    ensures
        entries_of(controllers).len() == controllers.len(),
        entries_of(controllers)[i].id == controllers[i].id,
        entries_of(controllers)[i].slot == controllers[i].slot,
        with_entry_slots(controllers, entries).len() == controllers.len(),
        with_entry_slots(controllers, entries)[i].slot == entries[i].slot,
        with_entry_slots(controllers, entries)[i].id == controllers[i].id,
        with_entry_slots(controllers, entries)[i].name == controllers[i].name,
        with_entry_slots(controllers, entries)[i].battery == controllers[i].battery,
        with_entry_slots(controllers, entries)[i].is_vibrating == controllers[i].is_vibrating,
        with_entry_slots(controllers, entries)[i].input == controllers[i].input,
{
}

/// At rest every button is up and both sticks are in the middle; an idle slot
/// claims a full battery and power over USB.
pub proof fn law_rest(battery: u8)
    ensures
        ({
            let i = resting_input(battery);
            &&& !i.dpad_up && !i.dpad_down && !i.dpad_left && !i.dpad_right
            &&& !i.a && !i.b && !i.x && !i.y
            &&& !i.r && !i.zr && !i.l && !i.zl
            &&& !i.home && !i.plus && !i.minus && !i.capture
            &&& !i.left_stick_press && !i.right_stick_press
            &&& i.left_stick.x == 2048 && i.left_stick.y == 2048
            &&& i.right_stick.x == 2048 && i.right_stick.y == 2048
            &&& i.battery == battery
        }),
        neutral() == resting_input(0x81),
        ({
            let p = resting_pad();
            &&& !p.a && !p.b && !p.x && !p.y && !p.lb && !p.rb && !p.lt && !p.rt
            &&& p.lt_value == 0 && p.rt_value == 0
            &&& !p.view && !p.menu && !p.xbox && !p.left_stick_press && !p.right_stick_press
            &&& !p.dpad_up && !p.dpad_down && !p.dpad_left && !p.dpad_right
            &&& p.left_stick.x == 50 && p.left_stick.y == 50
            &&& p.right_stick.x == 50 && p.right_stick.y == 50
        }),
{
}

} // verus!
