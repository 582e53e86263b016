//! Xbox to Switch Pro Controller input mapping.

use vstd::prelude::*;

use crate::models;
use crate::models::{Stick, StickPercent, SwitchInput, XboxInput};

verus! {

/// A gamepad at one moment, buttons named by their place.
#[derive(Clone, Copy, Debug, PartialEq, Eq, Structural)]
pub struct PadState {
    pub south: bool,
    pub east: bool,
    pub west: bool,
    pub north: bool,
    pub left_trigger: bool,
    pub right_trigger: bool,
    pub left_trigger2: bool,
    pub right_trigger2: bool,
    pub select: bool,
    pub start: bool,
    pub mode: bool,
    pub left_thumb: bool,
    pub right_thumb: bool,
    pub dpad_up: bool,
    pub dpad_down: bool,
    pub dpad_left: bool,
    pub dpad_right: bool,
    /// The left trigger axis is at or past the pull threshold.
    pub left_z_pulled: bool,
    /// The right trigger axis is at or past the pull threshold.
    pub right_z_pulled: bool,
    /// Stick positions, up being positive.
    pub left_stick: Stick,
    pub right_stick: Stick,
    /// The same positions in percent.
    pub left_percent: StickPercent,
    pub right_percent: StickPercent,
    /// Trigger pull in percent.
    pub left_pull: u32,
    pub right_pull: u32,
}

/// A gamepad that nobody touches.
pub open spec fn untouched() -> PadState {
    let center = Stick { x: models::STICK_CENTER, y: models::STICK_CENTER };
    let half = StickPercent { x: 50, y: 50 };
    PadState {
        south: false,
        east: false,
        west: false,
        north: false,
        left_trigger: false,
        right_trigger: false,
        left_trigger2: false,
        right_trigger2: false,
        select: false,
        start: false,
        mode: false,
        left_thumb: false,
        right_thumb: false,
        dpad_up: false,
        dpad_down: false,
        dpad_left: false,
        dpad_right: false,
        left_z_pulled: false,
        right_z_pulled: false,
        left_stick: center,
        right_stick: center,
        left_percent: half,
        right_percent: half,
        left_pull: 0,
        right_pull: 0,
    }
}

impl Default for PadState {
    fn default() -> (pad: PadState)
        ensures
            pad == untouched(),
    {
        PadState {
            south: false,
            east: false,
            west: false,
            north: false,
            left_trigger: false,
            right_trigger: false,
            left_trigger2: false,
            right_trigger2: false,
            select: false,
            start: false,
            mode: false,
            left_thumb: false,
            right_thumb: false,
            dpad_up: false,
            dpad_down: false,
            dpad_left: false,
            dpad_right: false,
            left_z_pulled: false,
            right_z_pulled: false,
            left_stick: Stick::default(),
            right_stick: Stick::default(),
            left_percent: StickPercent { x: 50, y: 50 },
            right_percent: StickPercent { x: 50, y: 50 },
            left_pull: 0,
            right_pull: 0,
        }
    }
}

/// The Switch input of a gamepad, without its battery. The four face buttons
/// keep their place, so each gets the label of its neighbour: south is A on
/// the Xbox pad and B on the Switch.
pub open spec fn mapped(pad: PadState) -> SwitchInput {
    SwitchInput {
        b: pad.south,
        a: pad.east,
        y: pad.west,
        x: pad.north,
        l: pad.left_trigger,
        r: pad.right_trigger,
        zl: pad.left_trigger2 || pad.left_z_pulled,
        zr: pad.right_trigger2 || pad.right_z_pulled,
        minus: pad.select,
        plus: pad.start,
        home: pad.mode,
        capture: false,
        left_stick_press: pad.left_thumb,
        right_stick_press: pad.right_thumb,
        dpad_up: pad.dpad_up,
        dpad_down: pad.dpad_down,
        dpad_left: pad.dpad_left,
        dpad_right: pad.dpad_right,
        left_stick: pad.left_stick,
        right_stick: pad.right_stick,
        battery: 0,
    }
}

/// The tester snapshot of a gamepad, with Xbox labels.
pub open spec fn shown(pad: PadState) -> XboxInput {
    XboxInput {
        a: pad.south,
        b: pad.east,
        x: pad.west,
        y: pad.north,
        lb: pad.left_trigger,
        rb: pad.right_trigger,
        lt: pad.left_trigger2,
        rt: pad.right_trigger2,
        lt_value: pad.left_pull,
        rt_value: pad.right_pull,
        view: pad.select,
        menu: pad.start,
        xbox: pad.mode,
        left_stick_press: pad.left_thumb,
        right_stick_press: pad.right_thumb,
        dpad_up: pad.dpad_up,
        dpad_down: pad.dpad_down,
        dpad_left: pad.dpad_left,
        dpad_right: pad.dpad_right,
        left_stick: pad.left_percent,
        right_stick: pad.right_percent,
    }
}

#[derive(Clone, Copy, Debug)]
pub struct Mapping;

impl Mapping {
    pub fn new() -> (mapping: Self)
        ensures
            mapping == Mapping,
    {
        Mapping
    }

    /// The Switch input of a gamepad. The battery is filled in by the bridge.
    pub fn poll(&self, pad: &PadState) -> (input: SwitchInput)
        ensures
            input == mapped(*pad),
    {
        SwitchInput {
            b: pad.south,
            a: pad.east,
            y: pad.west,
            x: pad.north,
            l: pad.left_trigger,
            r: pad.right_trigger,
            minus: pad.select,
            plus: pad.start,
            home: pad.mode,
            left_stick_press: pad.left_thumb,
            right_stick_press: pad.right_thumb,
            capture: false,
            dpad_up: pad.dpad_up,
            dpad_down: pad.dpad_down,
            dpad_left: pad.dpad_left,
            dpad_right: pad.dpad_right,
            zl: self.trigger_pressed(pad.left_trigger2, pad.left_z_pulled),
            zr: self.trigger_pressed(pad.right_trigger2, pad.right_z_pulled),
            left_stick: Stick::new(pad.left_stick.x, pad.left_stick.y),
            right_stick: Stick::new(pad.right_stick.x, pad.right_stick.y),
            battery: 0,
        }
    }

    /// A trigger counts as pressed by its button or by its axis.
    fn trigger_pressed(&self, button: bool, axis_pulled: bool) -> (pressed: bool)
        ensures
            pressed == (button || axis_pulled),
    {
        button || axis_pulled
    }
}

impl XboxInput {
    /// Snapshot of a gamepad for the tester page.
    pub fn from_gamepad(pad: &PadState) -> (input: XboxInput)
        ensures
            input == shown(*pad),
    {
        XboxInput {
            a: pad.south,
            b: pad.east,
            x: pad.west,
            y: pad.north,
            lb: pad.left_trigger,
            rb: pad.right_trigger,
            lt: pad.left_trigger2,
            rt: pad.right_trigger2,
            lt_value: pad.left_pull,
            rt_value: pad.right_pull,
            view: pad.select,
            menu: pad.start,
            xbox: pad.mode,
            left_stick_press: pad.left_thumb,
            right_stick_press: pad.right_thumb,
            dpad_up: pad.dpad_up,
            dpad_down: pad.dpad_down,
            dpad_left: pad.dpad_left,
            dpad_right: pad.dpad_right,
            left_stick: pad.left_percent,
            right_stick: pad.right_percent,
        }
    }
}

/// A gamepad that nobody touches reports nothing on either side.
pub proof fn law_untouched_is_resting()
    ensures
        mapped(untouched()) == models::resting_input(0),
        shown(untouched()) == models::resting_pad(),
{
}

/// What the Switch is told is what the tester shows, with A and B, and X and
/// Y, exchanged.
pub proof fn law_labels_exchanged(pad: PadState)
    ensures
        mapped(pad).a == shown(pad).b,
        mapped(pad).b == shown(pad).a,
        mapped(pad).x == shown(pad).y,
        mapped(pad).y == shown(pad).x,
        mapped(pad).l == shown(pad).lb,
        mapped(pad).r == shown(pad).rb,
        shown(pad).lt ==> mapped(pad).zl,
        shown(pad).rt ==> mapped(pad).zr,
        mapped(pad).minus == shown(pad).view,
        mapped(pad).plus == shown(pad).menu,
        mapped(pad).home == shown(pad).xbox,
        !mapped(pad).capture,
{
}

/// Every button of the Switch is pressed exactly when the button in its place
/// on the pad is, a trigger also when its axis is pulled, and the sticks are
/// where the pad's sticks are. Nothing on the pad is the capture button.
pub proof fn law_buttons_keep_place(pad: PadState)
    ensures
        ({
            let input = mapped(pad);
            &&& input.dpad_up == pad.dpad_up
            &&& input.dpad_down == pad.dpad_down
            &&& input.dpad_left == pad.dpad_left
            &&& input.dpad_right == pad.dpad_right
            &&& input.left_stick_press == pad.left_thumb
            &&& input.right_stick_press == pad.right_thumb
            &&& input.b == pad.south
            &&& input.a == pad.east
            &&& input.y == pad.west
            &&& input.x == pad.north
            &&& input.l == pad.left_trigger
            &&& input.r == pad.right_trigger
            &&& input.zl == (pad.left_trigger2 || pad.left_z_pulled)
            &&& input.zr == (pad.right_trigger2 || pad.right_z_pulled)
            &&& input.minus == pad.select
            &&& input.plus == pad.start
            &&& input.home == pad.mode
            &&& !input.capture
            &&& input.left_stick == pad.left_stick
            &&& input.right_stick == pad.right_stick
            &&& input.battery == 0
        }),
{
}

/// The tester shows every button of the pad under its Xbox label, and the
/// sticks and triggers in percent.
pub proof fn law_tester_shows_pad(pad: PadState)
    ensures
        ({
            let input = shown(pad);
            &&& input.a == pad.south
            &&& input.b == pad.east
            &&& input.x == pad.west
            &&& input.y == pad.north
            &&& input.lb == pad.left_trigger
            &&& input.rb == pad.right_trigger
            &&& input.lt == pad.left_trigger2
            &&& input.rt == pad.right_trigger2
            &&& input.lt_value == pad.left_pull
            &&& input.rt_value == pad.right_pull
            &&& input.view == pad.select
            &&& input.menu == pad.start
            &&& input.xbox == pad.mode
            &&& input.left_stick_press == pad.left_thumb
            &&& input.right_stick_press == pad.right_thumb
            &&& input.dpad_up == pad.dpad_up
            &&& input.dpad_down == pad.dpad_down
            &&& input.dpad_left == pad.dpad_left
            &&& input.dpad_right == pad.dpad_right
            &&& input.left_stick == pad.left_percent
            &&& input.right_stick == pad.right_percent
        }),
{
}

/// On a pad that nobody touches every button is up, both triggers are out and
/// both sticks are in the middle.
pub proof fn law_untouched(pad: PadState)
    requires
        pad == untouched(),
    ensures
        !pad.south && !pad.east && !pad.west && !pad.north,
        !pad.left_trigger && !pad.right_trigger && !pad.left_trigger2 && !pad.right_trigger2,
        !pad.select && !pad.start && !pad.mode && !pad.left_thumb && !pad.right_thumb,
        !pad.dpad_up && !pad.dpad_down && !pad.dpad_left && !pad.dpad_right,
        !pad.left_z_pulled && !pad.right_z_pulled,
        pad.left_stick.x == 2048 && pad.left_stick.y == 2048,
        pad.right_stick.x == 2048 && pad.right_stick.y == 2048,
        pad.left_percent.x == 50 && pad.left_percent.y == 50,
        pad.right_percent.x == 50 && pad.right_percent.y == 50,
        pad.left_pull == 0 && pad.right_pull == 0,
{
}

} // verus!
