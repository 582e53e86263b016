//! State of the terminal page.
//!
//! The page lists the controllers and the slots, and lets the user identify a
//! controller or move it to another slot. The program reads keys, draws the
//! screen and passes the commands on.

use vstd::prelude::*;

use crate::search;
use crate::text;
use crate::text::{append_number, labelled, numbered};

verus! {

/// Commands sent from the page to the bridge.
#[derive(Clone, Copy, Debug, PartialEq, Eq, Structural)]
pub enum UiCommand {
    /// Remap a controller to a new slot.
    Remap { controller_id: usize, new_slot: usize },
    /// Send a quick vibration to identify a controller.
    Identify { controller_id: usize },
    /// Send vibration for a specific duration.
    Vibrate { controller_id: usize, duration_ms: u64 },
}

/// Events sent from the bridge to the page.
#[derive(Clone, Debug)]
pub enum UiEvent {
    /// A controller connected.
    ControllerConnected { id: usize, name: String },
    /// A controller disconnected.
    ControllerDisconnected { id: usize },
    /// A slot assignment changed.
    SlotUpdated { slot: usize, controller_id: Option<usize>, controller_name: Option<String> },
    /// Vibration completed.
    VibrationComplete { id: usize },
}

/// A key that was pressed.
#[derive(Clone, Copy, Debug, PartialEq, Eq, Structural)]
pub enum Key {
    Esc,
    Enter,
    Up,
    Down,
    Char(char),
    Other,
}

/// Information about a connected controller.
#[derive(Clone, Debug)]
pub struct ControllerInfo {
    pub id: usize,
    pub name: String,
    pub slot: Option<usize>,
    pub is_vibrating: bool,
}

/// A controller, its name as characters.
pub struct InfoView {
    pub id: usize,
    pub name: Seq<char>,
    pub slot: Option<usize>,
    pub is_vibrating: bool,
}

impl View for ControllerInfo {
    type V = InfoView;

    open spec fn view(&self) -> InfoView {
        InfoView {
            id: self.id,
            name: self.name@,
            slot: self.slot,
            is_vibrating: self.is_vibrating,
        }
    }
}

/// The controllers of a list.
pub open spec fn infos(list: Seq<ControllerInfo>) -> Seq<InfoView> {
    Seq::new(list.len(), |i: int| list[i]@)
}

/// The controller of each slot.
pub open spec fn assignments(slots: Seq<Option<ControllerInfo>>) -> Seq<Option<InfoView>> {
    Seq::new(
        slots.len(),
        |i: int|
            match slots[i] {
                Some(info) => Some(info@),
                None => None,
            },
    )
}

/// State of the terminal page.
#[derive(Debug)]
pub struct UiState {
    pub controllers: Vec<ControllerInfo>,
    pub slot_assignments: Vec<Option<ControllerInfo>>,
    pub selected_index: usize,
    pub show_remap_dialog: bool,
    pub selected_slot_for_remap: usize,
    pub status_message: String,
    pub should_quit: bool,
}

/// The page, its texts as characters.
#[verifier::ext_equal]
pub struct UiView {
    pub controllers: Seq<InfoView>,
    pub slots: Seq<Option<InfoView>>,
    pub selected: usize,
    pub dialog: bool,
    pub dialog_slot: usize,
    pub status: Seq<char>,
    pub quit: bool,
}

impl View for UiState {
    type V = UiView;

    open spec fn view(&self) -> UiView {
        UiView {
            controllers: infos(self.controllers@),
            slots: assignments(self.slot_assignments@),
            selected: self.selected_index,
            dialog: self.show_remap_dialog,
            dialog_slot: self.selected_slot_for_remap,
            status: self.status_message@,
            quit: self.should_quit,
        }
    }
}

/// A page with nothing on it.
pub open spec fn blank(num_slots: usize) -> UiView {
    UiView {
        controllers: Seq::empty(),
        slots: Seq::new(num_slots as nat, |i: int| None),
        selected: 0,
        dialog: false,
        dialog_slot: 0,
        status: "Ready"@,
        quit: false,
    }
}

/// Index of controller `id`, or the number of controllers.
pub open spec fn find(controllers: Seq<InfoView>, id: usize) -> int {
    search::first_index(controllers, |c: InfoView| c.id == id)
}

/// The page after a controller connected. A known one changes nothing.
pub open spec fn after_connected(ui: UiView, id: usize, name: Seq<char>) -> UiView {
    if find(ui.controllers, id) < ui.controllers.len() {
        ui
    } else {
        UiView {
            controllers: ui.controllers.push(
                InfoView { id, name, slot: None, is_vibrating: false },
            ),
            status: "Controller connected"@,
            ..ui
        }
    }
}

/// The page after a controller disconnected: it leaves the list and its slot,
/// and the selection stays on the list.
pub open spec fn after_disconnected(ui: UiView, id: usize) -> UiView {
    let i = find(ui.controllers, id);
    if i < ui.controllers.len() {
        let rest = ui.controllers.remove(i);
        UiView {
            controllers: rest,
            slots: match ui.controllers[i].slot {
                Some(slot) => ui.slots.update(slot as int, None),
                None => ui.slots,
            },
            selected: if ui.selected >= rest.len() && ui.selected > 0 {
                (ui.selected - 1) as usize
            } else {
                ui.selected
            },
            status: "Controller disconnected"@,
            ..ui
        }
    } else {
        ui
    }
}

/// The page after a slot was given to a controller, or to none.
pub open spec fn after_slot_updated(
    ui: UiView,
    slot: usize,
    controller_id: Option<usize>,
    controller_name: Option<Seq<char>>,
) -> UiView {
    if slot < ui.slots.len() {
        let holder = match controller_id {
            Some(id) => Some(
                InfoView {
                    id,
                    name: match controller_name {
                        Some(name) => name,
                        None => Seq::empty(),
                    },
                    slot: Some(slot),
                    is_vibrating: false,
                },
            ),
            None => None,
        };
        UiView { slots: ui.slots.update(slot as int, holder), ..ui }
    } else {
        ui
    }
}

/// The page with the vibration mark of the `i`th controller set to `on`.
pub open spec fn with_vibrating(ui: UiView, i: int, on: bool) -> UiView {
    UiView {
        controllers: ui.controllers.update(
            i,
            InfoView { is_vibrating: on, ..ui.controllers[i] },
        ),
        ..ui
    }
}

/// The page after a vibration ended.
pub open spec fn after_vibration(ui: UiView, id: usize) -> UiView {
    let i = find(ui.controllers, id);
    if i < ui.controllers.len() {
        with_vibrating(ui, i, false)
    } else {
        ui
    }
}

/// The characters of an optional text.
pub open spec fn text_of(text: Option<String>) -> Option<Seq<char>> {
    match text {
        Some(t) => Some(t@),
        None => None,
    }
}

/// The page after an event of the bridge.
pub open spec fn after_event(ui: UiView, event: UiEvent) -> UiView {
    match event {
        UiEvent::ControllerConnected { id, name } => after_connected(ui, id, name@),
        UiEvent::ControllerDisconnected { id } => after_disconnected(ui, id),
        UiEvent::SlotUpdated { slot, controller_id, controller_name } => after_slot_updated(
            ui,
            slot,
            controller_id,
            text_of(controller_name),
        ),
        UiEvent::VibrationComplete { id } => after_vibration(ui, id),
    }
}

/// The selected index brought onto the list.
pub open spec fn clamped_selection(ui: UiView) -> UiView {
    UiView {
        selected: if ui.controllers.len() == 0 {
            0
        } else if ui.selected >= ui.controllers.len() {
            (ui.controllers.len() - 1) as usize
        } else {
            ui.selected
        },
        ..ui
    }
}

/// The slot that controller `id` claims, if any, is on the page.
pub open spec fn can_leave(ui: UiView, id: usize) -> bool {
    let i = find(ui.controllers, id);
    0 <= i < ui.controllers.len() ==> (ui.controllers[i].slot matches Some(slot) ==> slot
        < ui.slots.len())
}

impl UiView {
    /// Every slot that a controller claims is on the page.
    pub open spec fn wf(self) -> bool {
        forall|i: int|
            0 <= i < self.controllers.len() ==> ((#[trigger] self.controllers[i]).slot matches Some(
                slot,
            ) ==> slot < self.slots.len())
    }

    /// Every slot that a controller claims can be counted from one.
    pub open spec fn is_countable(self) -> bool {
        forall|i: int|
            0 <= i < self.controllers.len() ==> ((#[trigger] self.controllers[i]).slot matches Some(
                slot,
            ) ==> slot < usize::MAX)
    }

    /// A controller is selected.
    pub open spec fn has_selection(self) -> bool {
        self.selected < self.controllers.len()
    }
}

impl UiState {
    pub fn new(num_slots: usize) -> (ui: Self)
        ensures
            ui@ == blank(num_slots),
            ui@.wf(),
    {
        let mut slots: Vec<Option<ControllerInfo>> = Vec::new();
        let mut i: usize = 0;
        while i < num_slots
            invariant
                i <= num_slots,
                slots@.len() == i,
                forall|j: int| 0 <= j < i ==> (#[trigger] slots@[j]) is None,
            decreases num_slots - i,
        {
            slots.push(None);
            i += 1;
        }
        let ui = UiState {
            controllers: Vec::new(),
            slot_assignments: slots,
            selected_index: 0,
            show_remap_dialog: false,
            selected_slot_for_remap: 0,
            status_message: "Ready".to_owned(),
            should_quit: false,
        };
        assert(ui@ =~= blank(num_slots));
        ui
    }

    /// Index of a controller on the list.
    fn find_controller(&self, id: usize) -> (found: Option<usize>)
        ensures
            match found {
                Some(i) => i < self.controllers@.len() && i == find(self@.controllers, id),
                None => find(self@.controllers, id) == self@.controllers.len(),
            },
    {
        let ghost has_id = |c: InfoView| c.id == id;
        let ghost list = self@.controllers;
        let mut i: usize = 0;
        while i < self.controllers.len()
            invariant
                i <= self.controllers@.len(),
                list == self@.controllers,
                has_id == (|c: InfoView| c.id == id),
                search::first_index(list, has_id) == search::first_from(list, has_id, i as int),
            decreases self.controllers@.len() - i,
        {
            assert(list[i as int].id == self.controllers@[i as int].id);
            if self.controllers[i].id == id {
                return Some(i);
            }
            i += 1;
        }
        None
    }

    pub fn handle_controller_connected(&mut self, id: usize, name: String)
        ensures
            final(self)@ == after_connected(old(self)@, id, name@),
            old(self)@.wf() ==> final(self)@.wf(),
    {
        if self.find_controller(id).is_some() {
            return;
        }
        let ghost added = InfoView { id, name: name@, slot: None, is_vibrating: false };
        self.controllers.push(ControllerInfo { id, name, slot: None, is_vibrating: false });
        self.status_message = "Controller connected".to_owned();
        assert(self@.controllers =~= old(self)@.controllers.push(added));
    }

    pub fn handle_controller_disconnected(&mut self, id: usize)
        requires
            can_leave(old(self)@, id),
        ensures
            final(self)@ == after_disconnected(old(self)@, id),
            old(self)@.wf() ==> final(self)@.wf(),
    {
        if let Some(i) = self.find_controller(id) {
            let ghost before = self@;
            assert(before.controllers[i as int].slot == self.controllers@[i as int].slot);
            let controller = self.controllers.remove(i);
            assert(infos(self.controllers@) =~= before.controllers.remove(i as int));
            if let Some(slot) = controller.slot {
                self.slot_assignments[slot] = None;
                assert(assignments(self.slot_assignments@) =~= before.slots.update(
                    slot as int,
                    None,
                ));
            }
            if self.selected_index >= self.controllers.len() && self.selected_index > 0 {
                self.selected_index -= 1;
            }
            self.status_message = "Controller disconnected".to_owned();
        }
    }

    pub fn handle_slot_updated(
        &mut self,
        slot: usize,
        controller_id: Option<usize>,
        controller_name: Option<String>,
    )
        ensures
            final(self)@ == after_slot_updated(
                old(self)@,
                slot,
                controller_id,
                text_of(controller_name),
            ),
            old(self)@.wf() ==> final(self)@.wf(),
    {
        if slot < self.slot_assignments.len() {
            let holder = match controller_id {
                Some(id) => {
                    let name = match controller_name {
                        Some(name) => name,
                        None => String::new(),
                    };
                    Some(ControllerInfo { id, name, slot: Some(slot), is_vibrating: false })
                },
                None => None,
            };
            self.slot_assignments[slot] = holder;
            assert(self@ =~= after_slot_updated(
                old(self)@,
                slot,
                controller_id,
                text_of(controller_name),
            ));
        }
    }

    /// Mark a controller as vibrating or not.
    fn set_vibrating(&mut self, i: usize, on: bool)
        requires
            i < old(self).controllers@.len(),
        ensures
            final(self)@ == with_vibrating(old(self)@, i as int, on),
            old(self)@.wf() ==> final(self)@.wf(),
    {
        self.controllers[i].is_vibrating = on;
        assert(self@.controllers =~= with_vibrating(old(self)@, i as int, on).controllers);
    }

    pub fn selected_controller(&self) -> (selected: Option<&ControllerInfo>)
        ensures
            match selected {
                Some(info) => self@.has_selection() && *info
                    == self.controllers@[self.selected_index as int],
                None => !self@.has_selection(),
            },
    {
        if self.selected_index < self.controllers.len() {
            Some(&self.controllers[self.selected_index])
        } else {
            None
        }
    }

    /// Take in an event of the bridge.
    pub fn apply_event(&mut self, event: UiEvent)
        requires
            event matches UiEvent::ControllerDisconnected { id } ==> can_leave(old(self)@, id),
        ensures
            final(self)@ == after_event(old(self)@, event),
            old(self)@.wf() ==> final(self)@.wf(),
    {
        match event {
            UiEvent::ControllerConnected { id, name } => self.handle_controller_connected(id, name),
            UiEvent::ControllerDisconnected { id } => self.handle_controller_disconnected(id),
            UiEvent::SlotUpdated { slot, controller_id, controller_name } => {
                self.handle_slot_updated(slot, controller_id, controller_name)
            },
            UiEvent::VibrationComplete { id } => {
                if let Some(i) = self.find_controller(id) {
                    self.set_vibrating(i, false);
                }
            },
        }
    }

    /// Bring the selection onto the list, before the page is drawn.
    pub fn clamp_selection(&mut self)
        ensures
            final(self)@ == clamped_selection(old(self)@),
            old(self)@.wf() ==> final(self)@.wf(),
    {
        if self.controllers.len() == 0 {
            self.selected_index = 0;
        } else if self.selected_index >= self.controllers.len() {
            self.selected_index = self.controllers.len() - 1;
        }
    }
}

/// The page and the command after a key in the remap dialog.
pub open spec fn after_dialog_key(ui: UiView, key: Key, num_slots: usize) -> (
    UiView,
    Option<UiCommand>,
) {
    match key {
        Key::Esc => (UiView { dialog: false, status: "Remap cancelled"@, ..ui }, None),
        Key::Up => (
            UiView {
                dialog_slot: if ui.dialog_slot == usize::MAX {
                    usize::MAX
                } else {
                    (ui.dialog_slot + 1) as usize
                },
                ..ui
            },
            None,
        ),
        Key::Down => (
            UiView {
                dialog_slot: if ui.dialog_slot == 0 {
                    0
                } else if ui.dialog_slot - 1 > num_slots - 1 {
                    (num_slots - 1) as usize
                } else {
                    (ui.dialog_slot - 1) as usize
                },
                ..ui
            },
            None,
        ),
        Key::Enter => if ui.has_selection() {
            let chosen = ui.controllers[ui.selected as int];
            (
                UiView {
                    dialog: false,
                    status: "Remapping "@ + chosen.name + " to slot "@ + text::decimal(
                        (ui.dialog_slot + 1) as nat,
                    ),
                    ..ui
                },
                Some(UiCommand::Remap { controller_id: chosen.id, new_slot: ui.dialog_slot }),
            )
        } else {
            (UiView { dialog: false, ..ui }, None)
        },
        _ => (ui, None),
    }
}

/// The page and the command after a key outside the dialog.
pub open spec fn after_main_key(ui: UiView, key: Key) -> (UiView, Option<UiCommand>) {
    if key == Key::Esc || key == Key::Char('q') {
        (UiView { quit: true, ..ui }, None)
    } else if key == Key::Up || key == Key::Char('k') {
        (
            UiView {
                selected: if ui.selected > 0 {
                    (ui.selected - 1) as usize
                } else {
                    0
                },
                ..ui
            },
            None,
        )
    } else if key == Key::Down || key == Key::Char('j') {
        (
            UiView {
                selected: if ui.selected < ui.controllers.len() - 1 {
                    (ui.selected + 1) as usize
                } else {
                    ui.selected
                },
                ..ui
            },
            None,
        )
    } else if (key == Key::Char('v') || key == Key::Char('V')) && ui.has_selection() {
        let chosen = ui.controllers[ui.selected as int];
        (
            with_vibrating(
                UiView { status: "Vibrating "@ + chosen.name, ..ui },
                ui.selected as int,
                true,
            ),
            Some(UiCommand::Identify { controller_id: chosen.id }),
        )
    } else if (key == Key::Char('r') || key == Key::Char('R')) && ui.has_selection() {
        (
            UiView {
                dialog: true,
                dialog_slot: 0,
                status: "Select slot (↑/↓, Enter to confirm, Esc to cancel)"@,
                ..ui
            },
            None,
        )
    } else {
        (ui, None)
    }
}

/// The page and the command after a key.
pub open spec fn after_key(ui: UiView, key: Key, num_slots: usize) -> (UiView, Option<UiCommand>) {
    if ui.dialog {
        after_dialog_key(ui, key, num_slots)
    } else {
        after_main_key(ui, key)
    }
}

/// Handle a key in the remap dialog.
fn handle_dialog_key(key: Key, state: &mut UiState, num_slots: usize) -> (command: Option<
    UiCommand,
>)
    requires
        key == Key::Down ==> num_slots > 0,
        key == Key::Enter && old(state)@.has_selection() ==> old(state)@.dialog_slot < usize::MAX,
    ensures
        (final(state)@, command) == after_dialog_key(old(state)@, key, num_slots),
        old(state)@.wf() ==> final(state)@.wf(),
{
    match key {
        Key::Esc => {
            state.show_remap_dialog = false;
            state.status_message = "Remap cancelled".to_owned();
            None
        },
        Key::Up => {
            if state.selected_slot_for_remap < usize::MAX {
                state.selected_slot_for_remap += 1;
            }
            None
        },
        Key::Down => {
            if state.selected_slot_for_remap > 0 {
                state.selected_slot_for_remap -= 1;
            }
            if state.selected_slot_for_remap > num_slots - 1 {
                state.selected_slot_for_remap = num_slots - 1;
            }
            None
        },
        Key::Enter => {
            let slot: usize = state.selected_slot_for_remap;
            let mut command: Option<UiCommand> = None;
            if let Some(controller) = state.selected_controller() {
                let ghost chosen = state@.controllers[state@.selected as int];
                assert(controller@ == chosen);
                let mut message = "Remapping ".to_owned();
                message.append(controller.name.as_str());
                message.append(" to slot ");
                append_number(&mut message, slot as u64 + 1);
                command = Some(UiCommand::Remap { controller_id: controller.id, new_slot: slot });
                state.status_message = message;
            }
            state.show_remap_dialog = false;
            command
        },
        _ => None,
    }
}

/// Handle a key outside the dialog.
fn handle_main_key(key: Key, state: &mut UiState) -> (command: Option<UiCommand>)
    ensures
        (final(state)@, command) == after_main_key(old(state)@, key),
        old(state)@.wf() ==> final(state)@.wf(),
{
    match key {
        Key::Char('q') | Key::Esc => {
            state.should_quit = true;
            None
        },
        Key::Up | Key::Char('k') => {
            if state.selected_index > 0 {
                state.selected_index -= 1;
            }
            None
        },
        Key::Down | Key::Char('j') => {
            if state.controllers.len() > 0 && state.selected_index < state.controllers.len() - 1 {
                state.selected_index += 1;
            }
            None
        },
        Key::Char('v') | Key::Char('V') => {
            let mut command: Option<UiCommand> = None;
            if let Some(controller) = state.selected_controller() {
                assert(controller@ == state@.controllers[state@.selected as int]);
                let mut message = "Vibrating ".to_owned();
                message.append(controller.name.as_str());
                command = Some(UiCommand::Identify { controller_id: controller.id });
                state.status_message = message;
                let i: usize = state.selected_index;
                state.set_vibrating(i, true);
            }
            command
        },
        Key::Char('r') | Key::Char('R') => {
            if state.selected_controller().is_some() {
                state.show_remap_dialog = true;
                state.selected_slot_for_remap = 0;
                state.status_message = "Select slot (↑/↓, Enter to confirm, Esc to cancel)".to_owned();
            }
            None
        },
        _ => None,
    }
}

/// Handle a key. Returns the command to pass on to the bridge.
pub fn handle_key_event(key: Key, state: &mut UiState, num_slots: usize) -> (command: Option<
    UiCommand,
>)
    requires
        old(state)@.dialog && key == Key::Down ==> num_slots > 0,
        old(state)@.dialog && key == Key::Enter && old(state)@.has_selection() ==> old(
            state,
        )@.dialog_slot < usize::MAX,
    ensures
        (final(state)@, command) == after_key(old(state)@, key, num_slots),
        old(state)@.wf() ==> final(state)@.wf(),
{
    if state.show_remap_dialog {
        handle_dialog_key(key, state, num_slots)
    } else {
        handle_main_key(key, state)
    }
}

/// Title of the page.
pub const TITLE: &'static str = "Raspberry Switch Controller - Controller Mapping UI";

/// Title of the list of controllers.
pub const CONTROLLERS_TITLE: &'static str = "Connected Xbox Controllers";

/// Title of the list of slots.
pub const SLOTS_TITLE: &'static str = "Switch Pro Controller Slots";

/// One line of the list of controllers.
#[derive(Debug)]
pub struct ControllerLine {
    pub name: String,
    pub slot: String,
    pub vibration: &'static str,
    pub selected: bool,
}

/// A line of the list of controllers, as characters.
pub struct ControllerLineView {
    pub name: Seq<char>,
    pub slot: Seq<char>,
    pub vibration: Seq<char>,
    pub selected: bool,
}

impl View for ControllerLine {
    type V = ControllerLineView;

    open spec fn view(&self) -> ControllerLineView {
        ControllerLineView {
            name: self.name@,
            slot: self.slot@,
            vibration: self.vibration@,
            selected: self.selected,
        }
    }
}

/// One line of the list of slots.
#[derive(Debug)]
pub struct SlotLine {
    pub text: String,
    pub assigned: bool,
}

/// Everything that is drawn of the page.
#[derive(Debug)]
pub struct Screen {
    pub controllers: Vec<ControllerLine>,
    pub slots: Vec<SlotLine>,
    pub status: String,
}

/// The line of the `i`th controller.
pub open spec fn controller_line(ui: UiView, i: int) -> ControllerLineView {
    let c = ui.controllers[i];
    ControllerLineView {
        name: text::decimal((i + 1) as nat) + ". "@ + c.name,
        slot: match c.slot {
            Some(slot) => "→ Slot "@ + text::decimal((slot + 1) as nat),
            None => "→ (unassigned)"@,
        },
        vibration: if c.is_vibrating {
            " [VIBRATING]"@
        } else {
            ""@
        },
        selected: i == ui.selected,
    }
}

/// The line of the `i`th slot.
pub open spec fn slot_line(ui: UiView, i: int) -> Seq<char> {
    match ui.slots[i] {
        Some(c) => "Slot "@ + text::decimal((i + 1) as nat) + ": "@ + c.name + " (ID: GamepadId("@
            + text::decimal(c.id as nat) + "))"@,
        None => "Slot "@ + text::decimal((i + 1) as nat) + ": (Empty - idle)"@,
    }
}

/// The status bar.
pub open spec fn status_line(ui: UiView) -> Seq<char> {
    if ui.dialog {
        "Remap Mode: Use ↑/↓ to select slot, Enter to confirm, Esc to cancel | "@ + ui.status
    } else {
        "[V] Vibrate | [R] Remap | [↑/↓] Navigate | [Q] Quit | "@ + ui.status
    }
}

impl UiState {
    /// The line of a controller.
    fn line_of(&self, i: usize) -> (line: ControllerLine)
        requires
            self@.is_countable(),
            i < self.controllers.len(),
        ensures
            line@ == controller_line(self@, i as int),
    {
        let controller = &self.controllers[i];
        assert(controller@ == self@.controllers[i as int]);
        let mut name = numbered("", i as u64 + 1, ". ");
        name.append(controller.name.as_str());
        proof {
            reveal_strlit("");
            assert(""@ + text::decimal((i + 1) as nat) =~= text::decimal((i + 1) as nat));
        }
        let slot = match controller.slot {
            Some(slot) => labelled("→ Slot ", slot as u64 + 1),
            None => "→ (unassigned)".to_owned(),
        };
        let vibration = if controller.is_vibrating {
            " [VIBRATING]"
        } else {
            ""
        };
        ControllerLine { name, slot, vibration, selected: i == self.selected_index }
    }

    /// The line of a slot.
    fn slot_line_of(&self, i: usize) -> (line: SlotLine)
        requires
            i < self.slot_assignments.len(),
        ensures
            line.text@ == slot_line(self@, i as int),
            line.assigned == (self@.slots[i as int] is Some),
    {
        match &self.slot_assignments[i] {
            Some(controller) => {
                assert(self@.slots[i as int] == Some(controller@));
                let mut line = numbered("Slot ", i as u64 + 1, ": ");
                line.append(controller.name.as_str());
                line.append(" (ID: GamepadId(");
                append_number(&mut line, controller.id as u64);
                line.append("))");
                SlotLine { text: line, assigned: true }
            },
            None => SlotLine {
                text: numbered("Slot ", i as u64 + 1, ": (Empty - idle)"),
                assigned: false,
            },
        }
    }

    /// What is drawn of the page.
    pub fn screen(&self) -> (screen: Screen)
        requires
            self@.is_countable(),
        ensures
            screen.controllers@.len() == self@.controllers.len(),
            forall|i: int|
                0 <= i < screen.controllers@.len() ==> (#[trigger] screen.controllers@[i])@
                    == controller_line(self@, i),
            screen.slots@.len() == self@.slots.len(),
            forall|i: int|
                0 <= i < screen.slots@.len() ==> (#[trigger] screen.slots@[i]).text@ == slot_line(
                    self@,
                    i,
                ) && screen.slots@[i].assigned == (self@.slots[i] is Some),
            screen.status@ == status_line(self@),
    {
        let mut controllers: Vec<ControllerLine> = Vec::new();
        let mut i: usize = 0;
        while i < self.controllers.len()
            invariant
                self@.is_countable(),
                i <= self.controllers@.len(),
                controllers@.len() == i,
                forall|j: int|
                    0 <= j < i ==> (#[trigger] controllers@[j])@ == controller_line(self@, j),
            decreases self.controllers@.len() - i,
        {
            controllers.push(self.line_of(i));
            i += 1;
        }
        let mut slots: Vec<SlotLine> = Vec::new();
        let mut k: usize = 0;
        while k < self.slot_assignments.len()
            invariant
                k <= self.slot_assignments@.len(),
                slots@.len() == k,
                forall|j: int|
                    0 <= j < k ==> (#[trigger] slots@[j]).text@ == slot_line(self@, j)
                        && slots@[j].assigned == (self@.slots[j] is Some),
            decreases self.slot_assignments@.len() - k,
        {
            slots.push(self.slot_line_of(k));
            k += 1;
        }
        let mut status = if self.show_remap_dialog {
            "Remap Mode: Use ↑/↓ to select slot, Enter to confirm, Esc to cancel | ".to_owned()
        } else {
            "[V] Vibrate | [R] Remap | [↑/↓] Navigate | [Q] Quit | ".to_owned()
        };
        status.append(self.status_message.as_str());
        Screen { controllers, slots, status }
    }
}

/// A page whose controllers claim only slots on the page can be drawn, and
/// lets every controller leave.
pub proof fn law_page_in_order(ui: UiState, id: usize)
    requires
        ui@.wf(),
    ensures
        ui@.is_countable(),
        can_leave(ui@, id),
{
    assert(ui@.slots.len() == ui.slot_assignments.len());
}

/// No key moves a selection off the list, and a list with controllers on it
/// has a selection once it is drawn.
pub proof fn law_selection_stays(ui: UiView, key: Key, num_slots: usize)
    ensures
        ui.has_selection() ==> after_key(ui, key, num_slots).0.has_selection(),
        clamped_selection(ui).has_selection() <==> ui.controllers.len() > 0,
        ui.has_selection() ==> clamped_selection(ui) == ui,
{
}

/// A controller that leaves does not take the selection off the list, unless
/// the list is then empty.
pub proof fn law_disconnect_keeps_selection(ui: UiView, id: usize)
    requires
        ui.has_selection(),
    ensures
        after_disconnected(ui, id).has_selection() || after_disconnected(
            ui,
            id,
        ).controllers.len() == 0,
{
    search::lemma_first_from(ui.controllers, |c: InfoView| c.id == id, 0);
}

/// A controller that connects and disconnects again leaves the list and the
/// slots as they were.
pub proof fn law_connect_disconnect(ui: UiView, id: usize, name: Seq<char>)
    requires
        find(ui.controllers, id) == ui.controllers.len(),
    ensures
        after_disconnected(after_connected(ui, id, name), id).controllers == ui.controllers,
        after_disconnected(after_connected(ui, id, name), id).slots == ui.slots,
{
    let has_id = |c: InfoView| c.id == id;
    let list = after_connected(ui, id, name).controllers;
    search::lemma_first_from(ui.controllers, has_id, 0);
    assert forall|j: int| 0 <= j < ui.controllers.len() implies !has_id(#[trigger] list[j]) by {
        assert(!has_id(ui.controllers[j]));
    }
    search::lemma_is_first(list, has_id, ui.controllers.len() as int);
    assert(list.remove(ui.controllers.len() as int) =~= ui.controllers);
}

/// The page is left by `q` or Esc, and only outside the dialog.
pub proof fn law_quit_keys(ui: UiView, key: Key, num_slots: usize)
    requires
        !ui.quit,
    ensures
        after_key(ui, key, num_slots).0.quit <==> !ui.dialog && (key == Key::Esc || key
            == Key::Char('q')),
{
}

/// The page after the up key was pressed `n` times.
pub open spec fn after_ups(ui: UiView, n: nat, num_slots: usize) -> UiView
    decreases n,
{
    if n == 0 {
        ui
    } else {
        after_key(after_ups(ui, (n - 1) as nat, num_slots), Key::Up, num_slots).0
    }
}

/// Opening the dialog, going up `n` slots and confirming moves the selected
/// controller to slot `n`, and Esc instead sends nothing; both close the
/// dialog.
pub proof fn law_remap_dialog(ui: UiView, n: nat, num_slots: usize)
    requires
        !ui.dialog,
        ui.has_selection(),
        n < usize::MAX,
    ensures
        ({
            let opened = after_key(ui, Key::Char('r'), num_slots).0;
            let (done, command) = after_key(
                after_ups(opened, n, num_slots),
                Key::Enter,
                num_slots,
            );
            let (left, none) = after_key(after_ups(opened, n, num_slots), Key::Esc, num_slots);
            &&& opened.dialog
            &&& command == Some(
                UiCommand::Remap {
                    controller_id: ui.controllers[ui.selected as int].id,
                    new_slot: n as usize,
                },
            )
            &&& !done.dialog
            &&& none is None
            &&& !left.dialog
            &&& left.controllers == ui.controllers
            &&& left.slots == ui.slots
        }),
{
    lemma_ups(after_key(ui, Key::Char('r'), num_slots).0, n, num_slots);
}

proof fn lemma_ups(ui: UiView, n: nat, num_slots: usize)
    requires
        ui.dialog,
        ui.dialog_slot + n <= usize::MAX,
    ensures
        after_ups(ui, n, num_slots) == (UiView {
            dialog_slot: (ui.dialog_slot + n) as usize,
            ..ui
        }),
    decreases n,
{
    if n > 0 {
        lemma_ups(ui, (n - 1) as nat, num_slots);
    }
}

/// A page starts with every slot free, no controllers, the dialog closed and
/// "Ready" in its status line.
pub proof fn law_blank_page(num_slots: usize, i: int)
    ensures
        ({
            let ui = blank(num_slots);
            &&& ui.controllers.len() == 0
            &&& ui.slots.len() == num_slots
            &&& 0 <= i < num_slots ==> ui.slots[i] is None
            &&& ui.selected == 0 && ui.dialog_slot == 0
            &&& !ui.dialog && !ui.quit
            &&& ui.status == "Ready"@
        }),
{
}

/// Where controller `id` stands on the list: the first place with its number,
/// or behind the list.
pub proof fn law_found(controllers: Seq<InfoView>, id: usize)
    ensures
        0 <= find(controllers, id) <= controllers.len(),
        find(controllers, id) < controllers.len() ==> controllers[find(controllers, id)].id == id,
        forall|j: int|
            0 <= j < find(controllers, id) ==> (#[trigger] controllers[j]).id != id,
{
    let has_id = |c: InfoView| c.id == id;
    search::lemma_first_from(controllers, has_id, 0);
    assert forall|j: int| 0 <= j < find(controllers, id) implies (#[trigger] controllers[j]).id
        != id by {
        assert(!has_id(controllers[j]));
    }
}

/// A controller that is new to the page goes behind the others, on no slot and
/// not vibrating. One that is known changes nothing. Slots, selection and dialog
/// stay either way.
pub proof fn law_connected_event(ui: UiView, id: usize, name: Seq<char>)
    ensures
        ({
            let after = after_connected(ui, id, name);
            let known = exists|i: int|
                0 <= i < ui.controllers.len() && (#[trigger] ui.controllers[i]).id == id;
            &&& known ==> after == ui
            &&& !known ==> {
                &&& after.controllers.len() == ui.controllers.len() + 1
                &&& forall|i: int|
                    0 <= i < ui.controllers.len() ==> #[trigger] after.controllers[i]
                        == ui.controllers[i]
                &&& after.controllers.last().id == id
                &&& after.controllers.last().name == name
                &&& after.controllers.last().slot is None
                &&& !after.controllers.last().is_vibrating
                &&& after.status == "Controller connected"@
            }
            &&& after.slots == ui.slots && after.selected == ui.selected
            &&& after.dialog == ui.dialog && after.dialog_slot == ui.dialog_slot
            &&& after.quit == ui.quit
        }),
{
    law_found(ui.controllers, id);
}

/// A controller that leaves, at its first place `i` on the list: the others
/// keep their order, the slot that it claims is free, no other slot changes,
/// and a selection behind the new end of the list moves up by one.
pub proof fn law_disconnected_event(ui: UiView, id: usize, i: int, s: usize)
    requires
        0 <= i <= ui.controllers.len(),
        i < ui.controllers.len() ==> ui.controllers[i].id == id,
        forall|j: int| 0 <= j < i ==> (#[trigger] ui.controllers[j]).id != id,
        can_leave(ui, id),
        s < ui.slots.len(),
    ensures
        ({
            let after = after_disconnected(ui, id);
            &&& i == ui.controllers.len() ==> after == ui
            &&& i < ui.controllers.len() ==> {
                &&& after.controllers == ui.controllers.take(i) + ui.controllers.skip(i + 1)
                &&& ui.controllers[i].slot == Some(s) ==> after.slots[s as int] is None
                &&& ui.controllers[i].slot != Some(s) ==> after.slots[s as int]
                    == ui.slots[s as int]
                &&& ui.selected + 1 < ui.controllers.len() || ui.selected == 0 ==> after.selected
                    == ui.selected
                &&& ui.selected + 1 >= ui.controllers.len() && ui.selected > 0 ==> after.selected
                    == ui.selected - 1
                &&& after.status == "Controller disconnected"@
            }
            &&& after.slots.len() == ui.slots.len()
            &&& after.dialog == ui.dialog && after.dialog_slot == ui.dialog_slot
            &&& after.quit == ui.quit
        }),
{
    law_found(ui.controllers, id);
    if i < ui.controllers.len() {
        assert(ui.controllers.remove(i) =~= ui.controllers.take(i) + ui.controllers.skip(i + 1));
    }
}

/// A slot that is given to a controller shows its number and its name (none
/// where none is told); one that is given to nobody is free. The other slots,
/// the list and the rest of the page stay; a slot that the page has not changes
/// nothing.
pub proof fn law_slot_event(
    ui: UiView,
    slot: usize,
    controller_id: Option<usize>,
    controller_name: Option<Seq<char>>,
    s: int,
)
    requires
        0 <= s < ui.slots.len(),
    ensures
        ({
            let after = after_slot_updated(ui, slot, controller_id, controller_name);
            &&& after.slots.len() == ui.slots.len()
            &&& s != slot ==> after.slots[s] == ui.slots[s]
            &&& s == slot && controller_id is None ==> after.slots[s] is None
            &&& s == slot && controller_id is Some ==> {
                &&& after.slots[s] is Some
                &&& after.slots[s]->0.id == controller_id->0
                &&& after.slots[s]->0.slot == Some(slot)
                &&& !after.slots[s]->0.is_vibrating
                &&& controller_name is Some ==> after.slots[s]->0.name == controller_name->0
                &&& controller_name is None ==> after.slots[s]->0.name.len() == 0
            }
            &&& slot >= ui.slots.len() ==> after == ui
            &&& after.controllers == ui.controllers && after.selected == ui.selected
            &&& after.dialog == ui.dialog && after.dialog_slot == ui.dialog_slot
            &&& after.status == ui.status && after.quit == ui.quit
        }),
{
}

/// The end of a vibration clears the mark of the first controller of that
/// number, and changes nothing else.
pub proof fn law_vibration_event(ui: UiView, id: usize, i: int, k: int)
    requires
        0 <= i <= ui.controllers.len(),
        i < ui.controllers.len() ==> ui.controllers[i].id == id,
        forall|j: int| 0 <= j < i ==> (#[trigger] ui.controllers[j]).id != id,
        0 <= k < ui.controllers.len(),
    ensures
        ({
            let after = after_vibration(ui, id);
            let (was, now) = (ui.controllers[k], after.controllers[k]);
            &&& after.controllers.len() == ui.controllers.len()
            &&& now.id == was.id && now.name == was.name && now.slot == was.slot
            &&& k == i ==> !now.is_vibrating
            &&& k != i ==> now.is_vibrating == was.is_vibrating
            &&& after.slots == ui.slots && after.selected == ui.selected
            &&& after.dialog == ui.dialog && after.dialog_slot == ui.dialog_slot
            &&& after.status == ui.status && after.quit == ui.quit
        }),
{
    law_found(ui.controllers, id);
}

/// Each event is handled as what it is.
pub proof fn law_events(ui: UiView, event: UiEvent)
    ensures
        event matches UiEvent::ControllerConnected { id, name } ==> after_event(ui, event)
            == after_connected(ui, id, name@),
        event matches UiEvent::ControllerDisconnected { id } ==> after_event(ui, event)
            == after_disconnected(ui, id),
        event matches UiEvent::SlotUpdated {
            slot,
            controller_id,
            controller_name: Some(name),
        } ==> after_event(ui, event) == after_slot_updated(ui, slot, controller_id, Some(name@)),
        event matches UiEvent::SlotUpdated { slot, controller_id, controller_name: None }
            ==> after_event(ui, event) == after_slot_updated(ui, slot, controller_id, None),
        event matches UiEvent::VibrationComplete { id } ==> after_event(ui, event)
            == after_vibration(ui, id),
{
}

/// The keys of the list: up and down (or `k` and `j`) move the selection by one
/// and stop at the ends; `v` identifies the selected controller and marks it;
/// `r` opens the dialog at the first slot. Without a selection `v` and `r` do
/// nothing, and neither does any other key but those that leave.
pub proof fn law_list_keys(ui: UiView, key: Key, num_slots: usize, k: int)
    requires
        !ui.dialog,
        ui.controllers.len() <= usize::MAX,
    ensures
        ({
            let (after, command) = after_key(ui, key, num_slots);
            let up = key == Key::Up || key == Key::Char('k');
            let down = key == Key::Down || key == Key::Char('j');
            let shake = (key == Key::Char('v') || key == Key::Char('V')) && ui.selected
                < ui.controllers.len();
            let open = (key == Key::Char('r') || key == Key::Char('R')) && ui.selected
                < ui.controllers.len();
            let leave = key == Key::Esc || key == Key::Char('q');
            let chosen = ui.controllers[ui.selected as int];
            &&& up ==> after.selected == if ui.selected == 0 {
                0
            } else {
                ui.selected - 1
            }
            &&& down ==> after.selected == if ui.selected + 1 < ui.controllers.len() {
                ui.selected + 1
            } else {
                ui.selected as int
            }
            &&& !up && !down ==> after.selected == ui.selected
            &&& shake ==> command == Some(UiCommand::Identify { controller_id: chosen.id })
                && after.status == "Vibrating "@ + chosen.name
            &&& !shake ==> command is None
            &&& after.controllers.len() == ui.controllers.len()
            &&& 0 <= k < ui.controllers.len() ==> {
                &&& after.controllers[k].id == ui.controllers[k].id
                &&& after.controllers[k].name == ui.controllers[k].name
                &&& after.controllers[k].slot == ui.controllers[k].slot
                &&& after.controllers[k].is_vibrating == (ui.controllers[k].is_vibrating || (shake
                    && k == ui.selected))
            }
            &&& after.dialog == open
            &&& open ==> after.dialog_slot == 0
            &&& !open ==> after.dialog_slot == ui.dialog_slot
            &&& !open && !shake ==> after.status == ui.status
            &&& after.quit == (ui.quit || leave)
            &&& after.slots == ui.slots
        }),
{
}

/// The keys of the dialog: up counts the slot up, down counts it down, to no
/// more than the last slot of the gadget and no less than the first; Enter asks
/// for the selected controller to be moved there; Enter and Esc close the
/// dialog. Nothing else does anything, and the list and the slots stay.
pub proof fn law_dialog_keys(ui: UiView, key: Key, num_slots: usize)
    requires
        ui.dialog,
        key == Key::Down ==> num_slots > 0,
    ensures
        ({
            let (after, command) = after_key(ui, key, num_slots);
            let slot = ui.dialog_slot;
            let chosen = ui.controllers[ui.selected as int];
            &&& key == Key::Up && slot < usize::MAX ==> after.dialog_slot == slot + 1
            &&& key == Key::Up && slot == usize::MAX ==> after.dialog_slot == slot
            &&& key == Key::Down && slot == 0 ==> after.dialog_slot == 0
            &&& key == Key::Down && 0 < slot <= num_slots ==> after.dialog_slot == slot - 1
            &&& key == Key::Down && slot > num_slots ==> after.dialog_slot == num_slots - 1
            &&& key != Key::Up && key != Key::Down ==> after.dialog_slot == slot
            &&& after.dialog == (key != Key::Esc && key != Key::Enter)
            &&& key == Key::Enter && ui.selected < ui.controllers.len() ==> {
                &&& command == Some(
                    UiCommand::Remap { controller_id: chosen.id, new_slot: slot },
                )
                &&& after.status == "Remapping "@ + chosen.name + " to slot "@ + text::decimal(
                    (slot + 1) as nat,
                )
            }
            &&& command is Some ==> key == Key::Enter && ui.selected < ui.controllers.len()
            &&& key == Key::Esc ==> after.status == "Remap cancelled"@
            &&& key != Key::Esc && command is None ==> after.status == ui.status
            &&& after.controllers == ui.controllers && after.slots == ui.slots
            &&& after.selected == ui.selected && after.quit == ui.quit
        }),
{
}

/// A selection behind the list is brought to its last entry, and nothing else
/// of the page changes.
pub proof fn law_clamped_selection(ui: UiView)
    ensures
        ({
            let after = clamped_selection(ui);
            let n = ui.controllers.len();
            &&& ui.selected < n ==> after.selected == ui.selected
            &&& n > 0 && ui.selected >= n && n <= usize::MAX ==> after.selected == n - 1
            &&& n == 0 ==> after.selected == 0
            &&& after.controllers == ui.controllers && after.slots == ui.slots
            &&& after.dialog == ui.dialog && after.dialog_slot == ui.dialog_slot
            &&& after.status == ui.status && after.quit == ui.quit
        }),
{
}

/// The line of a controller: its place counted from one, its name, and its slot
/// counted from one. It is marked while the controller vibrates and while it is
/// selected.
pub proof fn law_controller_line(ui: UiView, i: int)
    requires
        0 <= i < ui.controllers.len(),
    ensures
        ({
            let line = controller_line(ui, i);
            let c = ui.controllers[i];
            &&& line.name == text::decimal((i + 1) as nat) + ". "@ + c.name
            &&& c.slot is None ==> line.slot == "→ (unassigned)"@
            &&& c.slot matches Some(slot) ==> line.slot == "→ Slot "@ + text::decimal(
                (slot + 1) as nat,
            )
            &&& c.is_vibrating ==> line.vibration == " [VIBRATING]"@
            &&& !c.is_vibrating ==> line.vibration.len() == 0
            &&& line.selected <==> i == ui.selected
        }),
{
    reveal_strlit("");
}

/// The line of a slot: its number counted from one, and the name and number of
/// the controller on it, or that it is empty.
pub proof fn law_slot_line(ui: UiView, i: int)
    requires
        0 <= i < ui.slots.len(),
    ensures
        ({
            let head = "Slot "@ + text::decimal((i + 1) as nat);
            let rest = slot_line(ui, i).skip(head.len() as int);
            &&& slot_line(ui, i).take(head.len() as int) == head
            &&& ui.slots[i] is None ==> rest == ": (Empty - idle)"@
            &&& ui.slots[i] matches Some(c) ==> rest == ": "@ + c.name + " (ID: GamepadId("@
                + text::decimal(c.id as nat) + "))"@
        }),
{
    let head = "Slot "@ + text::decimal((i + 1) as nat);
    let line = slot_line(ui, i);
    let rest = line.skip(head.len() as int);
    assert(line.take(head.len() as int) =~= head);
    match ui.slots[i] {
        Some(c) => {
            assert(rest =~= ": "@ + c.name + " (ID: GamepadId("@ + text::decimal(c.id as nat)
                + "))"@);
        },
        None => {
            assert(rest =~= ": (Empty - idle)"@);
        },
    }
}

/// The status bar names the keys that do something, and ends with the status
/// message.
pub proof fn law_status_line(ui: UiView)
    ensures
        ({
            let line = status_line(ui);
            let n = line.len() - ui.status.len();
            &&& line.skip(n) == ui.status
            &&& ui.dialog ==> line.take(n)
                == "Remap Mode: Use ↑/↓ to select slot, Enter to confirm, Esc to cancel | "@
            &&& !ui.dialog ==> line.take(n)
                == "[V] Vibrate | [R] Remap | [↑/↓] Navigate | [Q] Quit | "@
        }),
{
    let line = status_line(ui);
    let n = line.len() - ui.status.len();
    assert(line.skip(n) =~= ui.status);
    if ui.dialog {
        assert(line.take(n)
            =~= "Remap Mode: Use ↑/↓ to select slot, Enter to confirm, Esc to cancel | "@);
    } else {
        assert(line.take(n) =~= "[V] Vibrate | [R] Remap | [↑/↓] Navigate | [Q] Quit | "@);
    }
}

/// The view of a page keeps everything on it: the lists in their order, the
/// selection, the dialog, the status message and whether the page is left.
pub proof fn law_page_view(ui: UiState, i: int, s: int)
    requires
        0 <= i < ui.controllers@.len(),
        0 <= s < ui.slot_assignments@.len(),
    ensures
        ui@.controllers.len() == ui.controllers@.len(),
        ui@.controllers[i].id == ui.controllers@[i].id,
        ui@.controllers[i].name == ui.controllers@[i].name@,
        ui@.controllers[i].slot == ui.controllers@[i].slot,
        ui@.controllers[i].is_vibrating == ui.controllers@[i].is_vibrating,
        ui@.slots.len() == ui.slot_assignments@.len(),
        ui@.slots[s] is Some <==> ui.slot_assignments@[s] is Some,
        ui.slot_assignments@[s] matches Some(info) ==> {
            &&& ui@.slots[s]->0.id == info.id
            &&& ui@.slots[s]->0.name == info.name@
            &&& ui@.slots[s]->0.slot == info.slot
            &&& ui@.slots[s]->0.is_vibrating == info.is_vibrating
        },
        ui@.selected == ui.selected_index,
        ui@.dialog == ui.show_remap_dialog,
        ui@.dialog_slot == ui.selected_slot_for_remap,
        ui@.status == ui.status_message@,
        ui@.quit == ui.should_quit,
{
}

/// The view of a drawn line keeps its parts.
pub proof fn law_line_view(line: ControllerLine)
    ensures
        line@.name == line.name@,
        line@.slot == line.slot@,
        line@.vibration == line.vibration@,
        line@.selected == line.selected,
{
}

} // verus!
