//! Contents of the web page: what each element says and how it is styled.

use vstd::prelude::*;

use crate::bridge;
use crate::bridge::find_holder;
use crate::models;
use crate::models::{ControllerState, StickPercent, WebState, XboxInput};
use crate::text;
use crate::text::{append_number, labelled, numbered};
use crate::web;
use crate::web::battery_label;

verus! {

/// An element that lights up while its button is pressed.
#[derive(Debug)]
pub struct Cell {
    pub class: String,
    pub label: &'static str,
}

/// A cell, its texts as characters.
pub struct CellView {
    pub class: Seq<char>,
    pub label: Seq<char>,
}

impl View for Cell {
    type V = CellView;

    open spec fn view(&self) -> CellView {
        CellView { class: self.class@, label: self.label@ }
    }
}

/// A row of cells.
pub open spec fn cells(row: Seq<Cell>) -> Seq<CellView> {
    Seq::new(row.len(), |i: int| row[i]@)
}

/// The class of an element that is lit while `pressed`.
pub open spec fn lit(pressed: bool) -> Seq<char> {
    if pressed {
        "lit"@
    } else {
        ""@
    }
}

fn lit_class(pressed: bool) -> (class: &'static str)
    ensures
        class@ == lit(pressed),
{
    if pressed {
        "lit"
    } else {
        ""
    }
}

/// A cell of one kind.
pub open spec fn plain_cell(kind: Seq<char>, label: Seq<char>, pressed: bool) -> CellView {
    CellView { class: kind + " "@ + lit(pressed), label }
}

fn make_plain(kind: &'static str, label: &'static str, pressed: bool) -> (cell: Cell)
    ensures
        cell@ == plain_cell(kind@, label@, pressed),
{
    let mut class = kind.to_owned();
    class.append(" ");
    class.append(lit_class(pressed));
    Cell { class, label }
}

/// A cell of one kind with a class of its own.
pub open spec fn named_cell(
    kind: Seq<char>,
    class: Seq<char>,
    label: Seq<char>,
    pressed: bool,
) -> CellView {
    CellView { class: kind + " "@ + class + " "@ + lit(pressed), label }
}

fn make_named(
    kind: &'static str,
    class: &'static str,
    label: &'static str,
    pressed: bool,
) -> (cell: Cell)
    ensures
        cell@ == named_cell(kind@, class@, label@, pressed),
{
    let mut all = kind.to_owned();
    all.append(" ");
    all.append(class);
    all.append(" ");
    all.append(lit_class(pressed));
    Cell { class: all, label }
}

/// The four face buttons.
pub open spec fn face_cells(input: XboxInput) -> Seq<CellView> {
    seq![
        named_cell("pad-btn"@, "x"@, "X"@, input.x),
        named_cell("pad-btn"@, "y"@, "Y"@, input.y),
        named_cell("pad-btn"@, "b"@, "B"@, input.b),
        named_cell("pad-btn"@, "a"@, "A"@, input.a),
    ]
}

/// The two bumpers.
pub open spec fn bumper_cells(input: XboxInput) -> Seq<CellView> {
    seq![plain_cell("bumper"@, "LB"@, input.lb), plain_cell("bumper"@, "RB"@, input.rb)]
}

/// The buttons between the sticks.
pub open spec fn center_cells(input: XboxInput) -> Seq<CellView> {
    seq![
        plain_cell("center-btn"@, "View"@, input.view),
        plain_cell("xbox-btn"@, "X"@, input.xbox),
        plain_cell("center-btn"@, "Menu"@, input.menu),
    ]
}

/// The directional pad.
pub open spec fn dpad_cells(input: XboxInput) -> Seq<CellView> {
    seq![
        named_cell("dpad-btn"@, "dpad-up"@, "▲"@, input.dpad_up),
        named_cell("dpad-btn"@, "dpad-left"@, "◀"@, input.dpad_left),
        named_cell("dpad-btn"@, "dpad-right"@, "▶"@, input.dpad_right),
        named_cell("dpad-btn"@, "dpad-down"@, "▼"@, input.dpad_down),
    ]
}

/// A stick: a dot in a field, lit while the stick is pressed.
#[derive(Debug)]
pub struct StickCell {
    pub label: &'static str,
    pub note: &'static str,
    pub class: &'static str,
    pub style: String,
}

/// `percent` up to a hundred.
pub open spec fn whole(percent: u32) -> nat {
    if percent > 100 {
        100
    } else {
        percent as nat
    }
}

fn cap_percent(percent: u32) -> (capped: u64)
    ensures
        capped == whole(percent),
{
    if percent > 100 {
        100
    } else {
        percent as u64
    }
}

/// Where the dot of a stick is drawn. Up is at the top.
pub open spec fn stick_style(s: StickPercent) -> Seq<char> {
    "left:"@ + text::decimal(whole(s.x)) + "%;top:"@ + text::decimal((100 - whole(s.y)) as nat)
        + "%"@
}

/// The stick cell shows `label`, `s` and whether it is pressed.
pub open spec fn is_stick_cell(
    cell: StickCell,
    label: Seq<char>,
    s: StickPercent,
    pressed: bool,
) -> bool {
    &&& cell.label@ == label
    &&& cell.note@ == if pressed {
        " (pressed)"@
    } else {
        ""@
    }
    &&& cell.class@ == if pressed {
        "dot lit"@
    } else {
        "dot"@
    }
    &&& cell.style@ == stick_style(s)
}

fn make_stick(label: &'static str, s: StickPercent, pressed: bool) -> (cell: StickCell)
    ensures
        is_stick_cell(cell, label@, s, pressed),
{
    let mut style = numbered("left:", cap_percent(s.x), "%;top:");
    append_number(&mut style, 100 - cap_percent(s.y));
    style.append("%");
    StickCell {
        label,
        note: if pressed {
            " (pressed)"
        } else {
            ""
        },
        class: if pressed {
            "dot lit"
        } else {
            "dot"
        },
        style,
    }
}

/// A trigger: a bar, lit while the trigger is pressed.
#[derive(Debug)]
pub struct TriggerCell {
    pub label: &'static str,
    pub class: &'static str,
    pub style: String,
}

/// How far the bar of a trigger is filled.
pub open spec fn trigger_style(pull: u32) -> Seq<char> {
    "height:"@ + text::decimal(whole(pull)) + "%"@
}

/// The trigger cell shows `label`, the pull and whether it is pressed.
pub open spec fn is_trigger_cell(
    cell: TriggerCell,
    label: Seq<char>,
    pull: u32,
    pressed: bool,
) -> bool {
    &&& cell.label@ == label
    &&& cell.class@ == lit(pressed)
    &&& cell.style@ == trigger_style(pull)
}

fn make_trigger(label: &'static str, pull: u32, pressed: bool) -> (cell: TriggerCell)
    ensures
        is_trigger_cell(cell, label@, pull, pressed),
{
    TriggerCell {
        label,
        class: lit_class(pressed),
        style: numbered("height:", cap_percent(pull), "%"),
    }
}

/// What the page calls a slot.
pub open spec fn slot_text(slot: usize) -> Seq<char> {
    "Slot "@ + text::decimal((slot + 1) as nat)
}

/// The badge of an assigned slot.
fn slot_badge(slot: Option<usize>) -> (badge: Option<String>)
    requires
        slot matches Some(s) ==> s < usize::MAX,
    ensures
        is_slot_badge(badge, slot),
{
    match slot {
        Some(s) => Some(labelled("Slot ", s as u64 + 1)),
        None => None,
    }
}

/// The badge names the slot, and is there exactly when a slot is assigned.
pub open spec fn is_slot_badge(badge: Option<String>, slot: Option<usize>) -> bool {
    match slot {
        Some(s) => badge matches Some(label) && label@ == slot_text(s),
        None => badge is None,
    }
}

/// The changing part of a controller card.
#[derive(Debug)]
pub struct Readout {
    pub name: String,
    pub battery: String,
    pub slot: Option<String>,
    pub vibrating: bool,
    pub left_stick: StickCell,
    pub right_stick: StickCell,
    pub face: Vec<Cell>,
    pub bumpers: Vec<Cell>,
    pub center: Vec<Cell>,
    pub dpad: Vec<Cell>,
    pub left_trigger: TriggerCell,
    pub right_trigger: TriggerCell,
}

/// The input that a card shows: the latest one, or a pad at rest.
pub open spec fn input_shown(c: ControllerState) -> XboxInput {
    match c.input {
        Some(input) => input,
        None => models::resting_pad(),
    }
}

/// `readout` shows the controller `c`.
pub open spec fn shows_controller(readout: Readout, c: ControllerState) -> bool {
    let input = input_shown(c);
    &&& readout.name@ == c.name@
    &&& readout.battery@ == web::battery_text(c.battery)
    &&& is_slot_badge(readout.slot, c.slot)
    &&& readout.vibrating == c.is_vibrating
    &&& is_stick_cell(readout.left_stick, "L"@, input.left_stick, input.left_stick_press)
    &&& is_stick_cell(readout.right_stick, "R"@, input.right_stick, input.right_stick_press)
    &&& cells(readout.face@) == face_cells(input)
    &&& cells(readout.bumpers@) == bumper_cells(input)
    &&& cells(readout.center@) == center_cells(input)
    &&& cells(readout.dpad@) == dpad_cells(input)
    &&& is_trigger_cell(readout.left_trigger, "LT"@, input.lt_value, input.lt)
    &&& is_trigger_cell(readout.right_trigger, "RT"@, input.rt_value, input.rt)
}

fn make_face(input: &XboxInput) -> (row: Vec<Cell>)
    ensures
        cells(row@) == face_cells(*input),
{
    let row = vec![
        make_named("pad-btn", "x", "X", input.x),
        make_named("pad-btn", "y", "Y", input.y),
        make_named("pad-btn", "b", "B", input.b),
        make_named("pad-btn", "a", "A", input.a),
    ];
    assert(cells(row@) =~= face_cells(*input));
    row
}

fn make_bumpers(input: &XboxInput) -> (row: Vec<Cell>)
    ensures
        cells(row@) == bumper_cells(*input),
{
    let row = vec![make_plain("bumper", "LB", input.lb), make_plain("bumper", "RB", input.rb)];
    assert(cells(row@) =~= bumper_cells(*input));
    row
}

fn make_center(input: &XboxInput) -> (row: Vec<Cell>)
    ensures
        cells(row@) == center_cells(*input),
{
    let row = vec![
        make_plain("center-btn", "View", input.view),
        make_plain("xbox-btn", "X", input.xbox),
        make_plain("center-btn", "Menu", input.menu),
    ];
    assert(cells(row@) =~= center_cells(*input));
    row
}

fn make_dpad(input: &XboxInput) -> (row: Vec<Cell>)
    ensures
        cells(row@) == dpad_cells(*input),
{
    let row = vec![
        make_named("dpad-btn", "dpad-up", "▲", input.dpad_up),
        make_named("dpad-btn", "dpad-left", "◀", input.dpad_left),
        make_named("dpad-btn", "dpad-right", "▶", input.dpad_right),
        make_named("dpad-btn", "dpad-down", "▼", input.dpad_down),
    ];
    assert(cells(row@) =~= dpad_cells(*input));
    row
}

/// The changing part of a controller's card.
pub fn pad_readout(c: &ControllerState) -> (readout: Readout)
    requires
        c.slot matches Some(s) ==> s < usize::MAX,
    ensures
        shows_controller(readout, *c),
{
    let input = match c.input {
        Some(input) => input,
        None => XboxInput::default(),
    };
    Readout {
        name: c.name.clone(),
        battery: battery_label(c.battery),
        slot: slot_badge(c.slot),
        vibrating: c.is_vibrating,
        left_stick: make_stick("L", input.left_stick, input.left_stick_press),
        right_stick: make_stick("R", input.right_stick, input.right_stick_press),
        face: make_face(&input),
        bumpers: make_bumpers(&input),
        center: make_center(&input),
        dpad: make_dpad(&input),
        left_trigger: make_trigger("LT", input.lt_value, input.lt),
        right_trigger: make_trigger("RT", input.rt_value, input.rt),
    }
}

/// A choice of slot in a card's remap form.
#[derive(Debug)]
pub struct SlotOption {
    pub slot: usize,
    pub label: String,
    pub selected: bool,
}

/// A controller card.
#[derive(Debug)]
pub struct PadCard {
    pub controller_id: usize,
    pub card_id: String,
    /// Name of the event that replaces the readout.
    pub event: String,
    pub readout: Readout,
    pub options: Vec<SlotOption>,
}

/// Name of the event that replaces the readout of controller `id`.
pub open spec fn event_name(id: usize) -> Seq<char> {
    "pad-"@ + text::decimal(id as nat)
}

/// Name of the event that replaces the readout of a controller.
pub fn pad_event(id: usize) -> (name: String)
    ensures
        name@ == event_name(id),
{
    labelled("pad-", id as u64)
}

/// Different controllers have different events.
pub proof fn law_events_distinct(id: usize, other: usize)
    requires
        event_name(id) == event_name(other),
    ensures
        id == other,
{
    let a = event_name(id);
    let b = event_name(other);
    let head = "pad-"@.len();
    assert(a.subrange(head as int, a.len() as int) =~= text::decimal(id as nat));
    assert(b.subrange(head as int, b.len() as int) =~= text::decimal(other as nat));
    text::law_decimal_injective(id as nat, other as nat);
}

/// The `i`th choice of slot offers slot `i`, chosen beforehand when the
/// controller is on it.
pub open spec fn is_option(option: SlotOption, i: int, slot: Option<usize>) -> bool {
    &&& option.slot == i
    &&& option.label@ == slot_text(i as usize)
    &&& option.selected == (slot == Some(i as usize))
}

/// A controller's card.
pub fn pad_card(c: &ControllerState, num_slots: usize) -> (card: PadCard)
    requires
        c.slot matches Some(s) ==> s < usize::MAX,
    ensures
        card.controller_id == c.id,
        card.card_id@ == "card-"@ + text::decimal(c.id as nat),
        card.event@ == event_name(c.id),
        shows_controller(card.readout, *c),
        card.options@.len() == num_slots,
        forall|i: int| 0 <= i < num_slots ==> is_option(#[trigger] card.options@[i], i, c.slot),
{
    let mut options: Vec<SlotOption> = Vec::new();
    let mut slot: usize = 0;
    while slot < num_slots
        invariant
            slot <= num_slots,
            options@.len() == slot,
            forall|i: int| 0 <= i < slot ==> is_option(#[trigger] options@[i], i, c.slot),
        decreases num_slots - slot,
    {
        options.push(
            SlotOption {
                slot,
                label: labelled("Slot ", slot as u64 + 1),
                selected: c.slot == Some(slot),
            },
        );
        slot += 1;
    }
    PadCard {
        controller_id: c.id,
        card_id: labelled("card-", c.id as u64),
        event: pad_event(c.id),
        readout: pad_readout(c),
        options,
    }
}

/// A controller in the overview.
#[derive(Debug)]
pub struct ControllerRow {
    pub name: String,
    pub battery: String,
    pub slot: Option<String>,
}

/// A slot in the overview.
#[derive(Debug)]
pub struct SlotRow {
    pub label: String,
    /// Name of the controller on the slot.
    pub holder: Option<String>,
}

/// The overview: all controllers, all slots and the status line.
#[derive(Debug)]
pub struct Overview {
    pub controllers: Vec<ControllerRow>,
    pub slots: Vec<SlotRow>,
    pub status: String,
}

/// The row shows controller `c`.
pub open spec fn is_controller_row(row: ControllerRow, c: ControllerState) -> bool {
    &&& row.name@ == c.name@
    &&& row.battery@ == web::battery_text(c.battery)
    &&& is_slot_badge(row.slot, c.slot)
}

/// The row shows slot `i` and who is on it.
pub open spec fn is_slot_row(row: SlotRow, controllers: Seq<ControllerState>, i: int) -> bool {
    let k = bridge::holder(controllers, i as usize);
    &&& row.label@ == slot_text(i as usize) + ": "@
    &&& if 0 <= k < controllers.len() {
        row.holder matches Some(name) && name@ == controllers[k].name@
    } else {
        row.holder is None
    }
}

/// The overview of the page.
pub fn overview(ws: &WebState, num_slots: usize) -> (page: Overview)
    requires
        models::slots_countable(ws.controllers@),
    ensures
        page.controllers@.len() == ws.controllers@.len(),
        forall|i: int|
            0 <= i < ws.controllers@.len() ==> is_controller_row(
                #[trigger] page.controllers@[i],
                ws.controllers@[i],
            ),
        page.slots@.len() == num_slots,
        forall|i: int|
            0 <= i < num_slots ==> is_slot_row(#[trigger] page.slots@[i], ws.controllers@, i),
        page.status@ == ws.status@,
{
    let mut controllers: Vec<ControllerRow> = Vec::new();
    let mut i: usize = 0;
    while i < ws.controllers.len()
        invariant
            models::slots_countable(ws.controllers@),
            i <= ws.controllers@.len(),
            controllers@.len() == i,
            forall|j: int|
                0 <= j < i ==> is_controller_row(#[trigger] controllers@[j], ws.controllers@[j]),
        decreases ws.controllers@.len() - i,
    {
        let c = &ws.controllers[i];
        controllers.push(
            ControllerRow {
                name: c.name.clone(),
                battery: battery_label(c.battery),
                slot: slot_badge(c.slot),
            },
        );
        i += 1;
    }
    let mut slots: Vec<SlotRow> = Vec::new();
    let mut slot: usize = 0;
    while slot < num_slots
        invariant
            slot <= num_slots,
            slots@.len() == slot,
            forall|j: int|
                0 <= j < slot ==> is_slot_row(#[trigger] slots@[j], ws.controllers@, j),
        decreases num_slots - slot,
    {
        let holder = match find_holder(&ws.controllers, slot) {
            Some(k) => Some(ws.controllers[k].name.clone()),
            None => None,
        };
        slots.push(SlotRow { label: numbered("Slot ", slot as u64 + 1, ": "), holder });
        slot += 1;
    }
    Overview { controllers, slots, status: ws.status.clone() }
}

/// An element is styled differently while its button is pressed.
pub proof fn law_lit_when_pressed(kind: Seq<char>, class: Seq<char>, label: Seq<char>)
    ensures
        named_cell(kind, class, label, true) != named_cell(kind, class, label, false),
        plain_cell(kind, label, true) != plain_cell(kind, label, false),
{
    reveal_strlit("lit");
    reveal_strlit("");
    assert(named_cell(kind, class, label, true).class.len() == named_cell(
        kind,
        class,
        label,
        false,
    ).class.len() + 3);
    assert(plain_cell(kind, label, true).class.len() == plain_cell(kind, label, false).class.len()
        + 3);
}

/// The four face buttons: each is lit exactly while its own button is pressed.
pub proof fn law_face_cells(input: XboxInput)
    ensures
        face_cells(input).len() == 4,
        face_cells(input)[0].label == "X"@,
        input.x ==> face_cells(input)[0].class == "pad-btn x lit"@,
        !input.x ==> face_cells(input)[0].class == "pad-btn x "@,
        face_cells(input)[1].label == "Y"@,
        input.y ==> face_cells(input)[1].class == "pad-btn y lit"@,
        !input.y ==> face_cells(input)[1].class == "pad-btn y "@,
        face_cells(input)[2].label == "B"@,
        input.b ==> face_cells(input)[2].class == "pad-btn b lit"@,
        !input.b ==> face_cells(input)[2].class == "pad-btn b "@,
        face_cells(input)[3].label == "A"@,
        input.a ==> face_cells(input)[3].class == "pad-btn a lit"@,
        !input.a ==> face_cells(input)[3].class == "pad-btn a "@,
{
    reveal_strlit(" ");
    reveal_strlit("lit");
    reveal_strlit("");
    assert(named_cell("pad-btn"@, "x"@, "X"@, true).class =~= "pad-btn x lit"@) by {
        reveal_strlit("pad-btn");
        reveal_strlit("x");
        reveal_strlit("pad-btn x lit");
    }
    assert(named_cell("pad-btn"@, "x"@, "X"@, false).class =~= "pad-btn x "@) by {
        reveal_strlit("pad-btn");
        reveal_strlit("x");
        reveal_strlit("pad-btn x ");
    }
    assert(named_cell("pad-btn"@, "y"@, "Y"@, true).class =~= "pad-btn y lit"@) by {
        reveal_strlit("pad-btn");
        reveal_strlit("y");
        reveal_strlit("pad-btn y lit");
    }
    assert(named_cell("pad-btn"@, "y"@, "Y"@, false).class =~= "pad-btn y "@) by {
        reveal_strlit("pad-btn");
        reveal_strlit("y");
        reveal_strlit("pad-btn y ");
    }
    assert(named_cell("pad-btn"@, "b"@, "B"@, true).class =~= "pad-btn b lit"@) by {
        reveal_strlit("pad-btn");
        reveal_strlit("b");
        reveal_strlit("pad-btn b lit");
    }
    assert(named_cell("pad-btn"@, "b"@, "B"@, false).class =~= "pad-btn b "@) by {
        reveal_strlit("pad-btn");
        reveal_strlit("b");
        reveal_strlit("pad-btn b ");
    }
    assert(named_cell("pad-btn"@, "a"@, "A"@, true).class =~= "pad-btn a lit"@) by {
        reveal_strlit("pad-btn");
        reveal_strlit("a");
        reveal_strlit("pad-btn a lit");
    }
    assert(named_cell("pad-btn"@, "a"@, "A"@, false).class =~= "pad-btn a "@) by {
        reveal_strlit("pad-btn");
        reveal_strlit("a");
        reveal_strlit("pad-btn a ");
    }
}

/// The two bumpers: each is lit exactly while it is pressed.
pub proof fn law_bumper_cells(input: XboxInput)
    ensures
        bumper_cells(input).len() == 2,
        bumper_cells(input)[0].label == "LB"@,
        input.lb ==> bumper_cells(input)[0].class == "bumper lit"@,
        !input.lb ==> bumper_cells(input)[0].class == "bumper "@,
        bumper_cells(input)[1].label == "RB"@,
        input.rb ==> bumper_cells(input)[1].class == "bumper lit"@,
        !input.rb ==> bumper_cells(input)[1].class == "bumper "@,
{
    reveal_strlit(" ");
    reveal_strlit("lit");
    reveal_strlit("");
    assert(plain_cell("bumper"@, "LB"@, true).class =~= "bumper lit"@) by {
        reveal_strlit("bumper");
        reveal_strlit("bumper lit");
    }
    assert(plain_cell("bumper"@, "LB"@, false).class =~= "bumper "@) by {
        reveal_strlit("bumper");
        reveal_strlit("bumper ");
    }
    assert(plain_cell("bumper"@, "RB"@, true).class =~= "bumper lit"@) by {
        reveal_strlit("bumper");
        reveal_strlit("bumper lit");
    }
    assert(plain_cell("bumper"@, "RB"@, false).class =~= "bumper "@) by {
        reveal_strlit("bumper");
        reveal_strlit("bumper ");
    }
}

/// The buttons between the sticks: each is lit exactly while it is pressed.
pub proof fn law_center_cells(input: XboxInput)
    ensures
        center_cells(input).len() == 3,
        center_cells(input)[0].label == "View"@,
        input.view ==> center_cells(input)[0].class == "center-btn lit"@,
        !input.view ==> center_cells(input)[0].class == "center-btn "@,
        center_cells(input)[1].label == "X"@,
        input.xbox ==> center_cells(input)[1].class == "xbox-btn lit"@,
        !input.xbox ==> center_cells(input)[1].class == "xbox-btn "@,
        center_cells(input)[2].label == "Menu"@,
        input.menu ==> center_cells(input)[2].class == "center-btn lit"@,
        !input.menu ==> center_cells(input)[2].class == "center-btn "@,
{
    reveal_strlit(" ");
    reveal_strlit("lit");
    reveal_strlit("");
    assert(plain_cell("center-btn"@, "View"@, true).class =~= "center-btn lit"@) by {
        reveal_strlit("center-btn");
        reveal_strlit("center-btn lit");
    }
    assert(plain_cell("center-btn"@, "View"@, false).class =~= "center-btn "@) by {
        reveal_strlit("center-btn");
        reveal_strlit("center-btn ");
    }
    assert(plain_cell("xbox-btn"@, "X"@, true).class =~= "xbox-btn lit"@) by {
        reveal_strlit("xbox-btn");
        reveal_strlit("xbox-btn lit");
    }
    assert(plain_cell("xbox-btn"@, "X"@, false).class =~= "xbox-btn "@) by {
        reveal_strlit("xbox-btn");
        reveal_strlit("xbox-btn ");
    }
    assert(plain_cell("center-btn"@, "Menu"@, true).class =~= "center-btn lit"@) by {
        reveal_strlit("center-btn");
        reveal_strlit("center-btn lit");
    }
    assert(plain_cell("center-btn"@, "Menu"@, false).class =~= "center-btn "@) by {
        reveal_strlit("center-btn");
        reveal_strlit("center-btn ");
    }
}

/// The directional pad: each arrow is lit exactly while its direction is pressed.
pub proof fn law_dpad_cells(input: XboxInput)
    ensures
        dpad_cells(input).len() == 4,
        dpad_cells(input)[0].label == "▲"@,
        input.dpad_up ==> dpad_cells(input)[0].class == "dpad-btn dpad-up lit"@,
        !input.dpad_up ==> dpad_cells(input)[0].class == "dpad-btn dpad-up "@,
        dpad_cells(input)[1].label == "◀"@,
        input.dpad_left ==> dpad_cells(input)[1].class == "dpad-btn dpad-left lit"@,
        !input.dpad_left ==> dpad_cells(input)[1].class == "dpad-btn dpad-left "@,
        dpad_cells(input)[2].label == "▶"@,
        input.dpad_right ==> dpad_cells(input)[2].class == "dpad-btn dpad-right lit"@,
        !input.dpad_right ==> dpad_cells(input)[2].class == "dpad-btn dpad-right "@,
        dpad_cells(input)[3].label == "▼"@,
        input.dpad_down ==> dpad_cells(input)[3].class == "dpad-btn dpad-down lit"@,
        !input.dpad_down ==> dpad_cells(input)[3].class == "dpad-btn dpad-down "@,
{
    reveal_strlit(" ");
    reveal_strlit("lit");
    reveal_strlit("");
    assert(named_cell("dpad-btn"@, "dpad-up"@, "▲"@, true).class =~= "dpad-btn dpad-up lit"@) by {
        reveal_strlit("dpad-btn");
        reveal_strlit("dpad-up");
        reveal_strlit("dpad-btn dpad-up lit");
    }
    assert(named_cell("dpad-btn"@, "dpad-up"@, "▲"@, false).class =~= "dpad-btn dpad-up "@) by {
        reveal_strlit("dpad-btn");
        reveal_strlit("dpad-up");
        reveal_strlit("dpad-btn dpad-up ");
    }
    assert(named_cell("dpad-btn"@, "dpad-left"@, "◀"@, true).class
        =~= "dpad-btn dpad-left lit"@) by {
        reveal_strlit("dpad-btn");
        reveal_strlit("dpad-left");
        reveal_strlit("dpad-btn dpad-left lit");
    }
    assert(named_cell("dpad-btn"@, "dpad-left"@, "◀"@, false).class
        =~= "dpad-btn dpad-left "@) by {
        reveal_strlit("dpad-btn");
        reveal_strlit("dpad-left");
        reveal_strlit("dpad-btn dpad-left ");
    }
    assert(named_cell("dpad-btn"@, "dpad-right"@, "▶"@, true).class
        =~= "dpad-btn dpad-right lit"@) by {
        reveal_strlit("dpad-btn");
        reveal_strlit("dpad-right");
        reveal_strlit("dpad-btn dpad-right lit");
    }
    assert(named_cell("dpad-btn"@, "dpad-right"@, "▶"@, false).class
        =~= "dpad-btn dpad-right "@) by {
        reveal_strlit("dpad-btn");
        reveal_strlit("dpad-right");
        reveal_strlit("dpad-btn dpad-right ");
    }
    assert(named_cell("dpad-btn"@, "dpad-down"@, "▼"@, true).class
        =~= "dpad-btn dpad-down lit"@) by {
        reveal_strlit("dpad-btn");
        reveal_strlit("dpad-down");
        reveal_strlit("dpad-btn dpad-down lit");
    }
    assert(named_cell("dpad-btn"@, "dpad-down"@, "▼"@, false).class
        =~= "dpad-btn dpad-down "@) by {
        reveal_strlit("dpad-btn");
        reveal_strlit("dpad-down");
        reveal_strlit("dpad-btn dpad-down ");
    }
}

/// Where the dot of a stick is drawn: as far from the left as the stick is to
/// the right, and as far from the top as it is from the upper end. What is
/// beyond the field is drawn at its edge.
pub proof fn law_stick_style(x: u32, y: u32)
    ensures
        x <= 100 && y <= 100 ==> stick_style(StickPercent { x, y }) == "left:"@ + text::decimal(
            x as nat,
        ) + "%;top:"@ + text::decimal((100 - y) as nat) + "%"@,
        x > 100 ==> stick_style(StickPercent { x, y }) == stick_style(StickPercent { x: 100, y }),
        y > 100 ==> stick_style(StickPercent { x, y }) == stick_style(StickPercent { x, y: 100 }),
{
}

/// The bar of a trigger is filled as far as the trigger is pulled, at most
/// whole.
pub proof fn law_trigger_style(pull: u32)
    ensures
        pull <= 100 ==> trigger_style(pull) == "height:"@ + text::decimal(pull as nat) + "%"@,
        pull > 100 ==> trigger_style(pull) == trigger_style(100),
{
}

/// What a stick and a trigger show: their own label, their place, and whether
/// they are pressed.
pub proof fn law_stick_and_trigger_cells(
    stick: StickCell,
    trigger: TriggerCell,
    label: Seq<char>,
    s: StickPercent,
    pull: u32,
    pressed: bool,
)
    ensures
        is_stick_cell(stick, label, s, pressed) ==> {
            &&& stick.label@ == label
            &&& stick.style@ == stick_style(s)
            &&& pressed ==> stick.note@ == " (pressed)"@ && stick.class@ == "dot lit"@
            &&& !pressed ==> stick.note@.len() == 0 && stick.class@ == "dot"@
        },
        is_trigger_cell(trigger, label, pull, pressed) ==> {
            &&& trigger.label@ == label
            &&& trigger.style@ == trigger_style(pull)
            &&& pressed ==> trigger.class@ == "lit"@
            &&& !pressed ==> trigger.class@.len() == 0
        },
{
    reveal_strlit("");
}

/// Slots are counted from one on the page.
pub proof fn law_slot_text(slot: usize)
    ensures
        slot_text(slot).take(5) == "Slot "@,
        text::parsed(slot_text(slot).skip(5), (slot + 1) as nat) == Some((slot + 1) as nat),
{
    reveal_strlit("Slot ");
    text::law_decimal_round_trip((slot + 1) as nat, (slot + 1) as nat);
    assert(slot_text(slot).take(5) =~= "Slot "@);
    assert(slot_text(slot).skip(5) =~= text::decimal((slot + 1) as nat));
}

/// The event of a controller is called after its number.
pub proof fn law_event_name(id: usize)
    ensures
        event_name(id).take(4) == "pad-"@,
        text::parsed(event_name(id).skip(4), id as nat) == Some(id as nat),
{
    reveal_strlit("pad-");
    text::law_decimal_round_trip(id as nat, id as nat);
    assert(event_name(id).take(4) =~= "pad-"@);
    assert(event_name(id).skip(4) =~= text::decimal(id as nat));
}

/// What a card shows of a controller: its name, battery, slot and vibration,
/// and each element from the input it belongs to; before the first reading, a
/// pad at rest.
pub proof fn law_card_shows_controller(readout: Readout, c: ControllerState, input: XboxInput)
    requires
        shows_controller(readout, c),
        c.input is Some ==> input == c.input->0,
        c.input is None ==> input == models::resting_pad(),
    ensures
        readout.name@ == c.name@,
        readout.battery@ == web::battery_text(c.battery),
        readout.vibrating == c.is_vibrating,
        readout.slot is Some <==> c.slot is Some,
        c.slot is Some ==> readout.slot->0@ == slot_text(c.slot->0),
        readout.left_stick.label@ == "L"@ && readout.right_stick.label@ == "R"@,
        readout.left_stick.style@ == stick_style(input.left_stick),
        readout.right_stick.style@ == stick_style(input.right_stick),
        readout.left_stick.class@ == "dot lit"@ <==> input.left_stick_press,
        readout.right_stick.class@ == "dot lit"@ <==> input.right_stick_press,
        readout.left_trigger.label@ == "LT"@ && readout.right_trigger.label@ == "RT"@,
        readout.left_trigger.style@ == trigger_style(input.lt_value),
        readout.right_trigger.style@ == trigger_style(input.rt_value),
        readout.left_trigger.class@ == "lit"@ <==> input.lt,
        readout.right_trigger.class@ == "lit"@ <==> input.rt,
        cells(readout.face@) == face_cells(input),
        cells(readout.bumpers@) == bumper_cells(input),
        cells(readout.center@) == center_cells(input),
        cells(readout.dpad@) == dpad_cells(input),
{
    reveal_strlit("lit");
    reveal_strlit("");
    reveal_strlit("dot");
    reveal_strlit("dot lit");
    assert("lit"@.len() == 3 && ""@.len() == 0 && "dot"@.len() == 3 && "dot lit"@.len() == 7);
}

/// The choices of a remap form offer the slots in order, under their numbers,
/// and exactly the controller's own slot is chosen beforehand.
pub proof fn law_slot_option(option: SlotOption, slot: usize, held: Option<usize>)
    requires
        is_option(option, slot as int, held),
    ensures
        option.slot == slot,
        option.label@ == slot_text(slot),
        option.selected <==> held is Some && held->0 == slot,
{
}

/// A controller's row in the overview: its name, its battery and, when it is on
/// a slot, that slot.
pub proof fn law_controller_row(row: ControllerRow, c: ControllerState)
    requires
        is_controller_row(row, c),
    ensures
        row.name@ == c.name@,
        row.battery@ == web::battery_text(c.battery),
        row.slot is Some <==> c.slot is Some,
        c.slot is Some ==> row.slot->0@ == slot_text(c.slot->0),
{
}

/// A slot's row in the overview: its number counted from one, and the name of
/// the first controller on it, if there is one.
pub proof fn law_slot_row(row: SlotRow, controllers: Seq<ControllerState>, slot: usize, k: int)
    requires
        is_slot_row(row, controllers, slot as int),
        0 <= k <= controllers.len(),
        k < controllers.len() ==> controllers[k].slot == Some(slot),
        forall|j: int| 0 <= j < k ==> (#[trigger] controllers[j]).slot != Some(slot),
    ensures
        row.label@ == slot_text(slot) + ": "@,
        row.holder is Some <==> k < controllers.len(),
        k < controllers.len() ==> row.holder->0@ == controllers[k].name@,
{
    bridge::law_first_found(controllers, slot, 0);
}

/// The view of a row keeps the cells in their order, with class and label.
pub proof fn law_cells_view(row: Seq<Cell>, i: int)
    requires
        0 <= i < row.len(),
    ensures
        cells(row).len() == row.len(),
        cells(row)[i].class == row[i].class@,
        cells(row)[i].label == row[i].label@,
{
}

} // verus!
