//! A connected Wii Remote: the order in which it is set up and read.
//!
//! The program writes to the remote and reads from it; each outcome is an
//! event here, and the answer is what to do next.

use vstd::prelude::*;

verus! {

/// Reporting mode with buttons, accelerometer and 16 extension bytes.
pub const MOTION_REPORT: u8 = 0x35;

/// Where a remote stands.
#[derive(Clone, Copy, Debug, PartialEq, Eq, Structural)]
pub enum WiiStage {
    /// The player light is being set.
    Light,
    /// The sensors are being set up.
    Sensors,
    /// The reporting mode is being set for the first time.
    Mode,
    /// Reports are read.
    Stream,
    /// The remote is gone or no longer wanted.
    Ended,
}

/// What happened.
#[derive(Clone, Copy, Debug, PartialEq, Eq)]
pub enum WiiEvent {
    /// A write came to its end.
    Written { ok: bool },
    /// The sensors were set up, as far as they are there.
    SensorsReady,
    /// A status report was read.
    Status,
    /// A data report was read.
    Data { mode: u8, data: [u8; 21] },
    /// Some other report was read.
    OtherReport,
    ReadFailed,
    /// The program is about to exit.
    Exiting,
}

/// What to do next.
#[derive(Clone, Copy, Debug, PartialEq, Eq)]
pub enum WiiAction {
    /// Light the first player light.
    SetLight,
    /// Start the gyroscope and fetch the calibration of the sensors.
    SetUpSensors,
    /// Ask for motion reports, and go on only when that worked.
    SetMode,
    /// Ask for motion reports again, and read on whether or not that worked.
    RepeatMode,
    /// Read a report.
    Read,
    /// Publish the sample in a data report, then read on. These are the bytes
    /// of the gyroscope.
    Sample { gyro: [u8; 6] },
    Leave,
}

/// The gyroscope bytes of a data report, behind the buttons and the
/// accelerometer.
pub open spec fn gyro_bytes(data: Seq<u8>) -> Seq<u8> {
    data.subrange(5, 11)
}

/// The next stage.
pub open spec fn next_stage(stage: WiiStage, event: WiiEvent) -> WiiStage {
    match (stage, event) {
        (WiiStage::Light, WiiEvent::Written { ok: true }) => WiiStage::Sensors,
        (WiiStage::Sensors, WiiEvent::SensorsReady) => WiiStage::Mode,
        (WiiStage::Mode, WiiEvent::Written { ok: true }) => WiiStage::Stream,
        (WiiStage::Stream, WiiEvent::Status) => WiiStage::Stream,
        (WiiStage::Stream, WiiEvent::Data { .. }) => WiiStage::Stream,
        (WiiStage::Stream, WiiEvent::OtherReport) => WiiStage::Stream,
        (WiiStage::Stream, WiiEvent::Written { .. }) => WiiStage::Stream,
        _ => WiiStage::Ended,
    }
}

/// What the stage reached calls for.
pub open spec fn is_action(stage: WiiStage, event: WiiEvent, action: WiiAction) -> bool {
    match next_stage(stage, event) {
        WiiStage::Light => action == WiiAction::SetLight,
        WiiStage::Sensors => action == WiiAction::SetUpSensors,
        WiiStage::Mode => action == WiiAction::SetMode,
        WiiStage::Stream => match event {
            WiiEvent::Status => action == WiiAction::RepeatMode,
            WiiEvent::Data { mode, data } => if mode == MOTION_REPORT {
                action matches WiiAction::Sample { gyro } && gyro@ == gyro_bytes(data@)
            } else {
                action == WiiAction::Read
            },
            _ => action == WiiAction::Read,
        },
        WiiStage::Ended => action == WiiAction::Leave,
    }
}

/// The gyroscope bytes of a data report.
pub fn motion_plus_bytes(data: &[u8; 21]) -> (gyro: [u8; 6])
    ensures
        gyro@ == gyro_bytes(data@),
{
    let gyro: [u8; 6] = [data[5], data[6], data[7], data[8], data[9], data[10]];
    assert(gyro@ =~= gyro_bytes(data@));
    gyro
}

impl WiiStage {
    /// Where a remote that just connected stands. Its light is to be set.
    pub fn start() -> (stage: WiiStage)
        ensures
            stage == WiiStage::Light,
    {
        WiiStage::Light
    }

    /// Take in an event, and tell what to do next.
    pub fn advance(&mut self, event: &WiiEvent) -> (action: WiiAction)
        ensures
            *final(self) == next_stage(*old(self), *event),
            is_action(*old(self), *event, action),
    {
        let (next, action) = match (*self, *event) {
            (WiiStage::Light, WiiEvent::Written { ok: true }) => (
                WiiStage::Sensors,
                WiiAction::SetUpSensors,
            ),
            (WiiStage::Sensors, WiiEvent::SensorsReady) => (WiiStage::Mode, WiiAction::SetMode),
            (WiiStage::Mode, WiiEvent::Written { ok: true }) => (WiiStage::Stream, WiiAction::Read),
            (WiiStage::Stream, WiiEvent::Status) => (WiiStage::Stream, WiiAction::RepeatMode),
            (WiiStage::Stream, WiiEvent::Data { mode, data }) => {
                if mode == MOTION_REPORT {
                    (WiiStage::Stream, WiiAction::Sample { gyro: motion_plus_bytes(&data) })
                } else {
                    (WiiStage::Stream, WiiAction::Read)
                }
            },
            (WiiStage::Stream, WiiEvent::OtherReport) => (WiiStage::Stream, WiiAction::Read),
            (WiiStage::Stream, WiiEvent::Written { .. }) => (WiiStage::Stream, WiiAction::Read),
            _ => (WiiStage::Ended, WiiAction::Leave),
        };
        *self = next;
        action
    }
}

/// The stage after a run of events.
pub open spec fn stage_after(stage: WiiStage, events: Seq<WiiEvent>) -> WiiStage
    decreases events.len(),
{
    if events.len() == 0 {
        stage
    } else {
        next_stage(stage_after(stage, events.drop_last()), events.last())
    }
}

/// A remote that was left stays left.
pub proof fn law_ended_stays(events: Seq<WiiEvent>)
    ensures
        stage_after(WiiStage::Ended, events) == WiiStage::Ended,
    decreases events.len(),
{
    if events.len() > 0 {
        law_ended_stays(events.drop_last());
    }
}

/// Samples come only from a remote that is set up, out of motion reports, and
/// a stream that ended gives none.
pub proof fn law_samples(stage: WiiStage, event: WiiEvent, action: WiiAction)
    requires
        is_action(stage, event, action),
    ensures
        action is Sample ==> stage == WiiStage::Stream && event is Data && event->mode
            == MOTION_REPORT,
        stage == WiiStage::Stream && event is Status ==> action == WiiAction::RepeatMode
            && next_stage(stage, event) == WiiStage::Stream,
        event is ReadFailed || event is Exiting ==> action == WiiAction::Leave,
{
}

/// A remote is streamed from exactly once it was lit, set up and put in motion
/// mode, each with success.
pub proof fn law_setup_order(lit: bool, mode_set: bool)
    ensures
        stage_after(
            WiiStage::Light,
            seq![
                WiiEvent::Written { ok: lit },
                WiiEvent::SensorsReady,
                WiiEvent::Written { ok: mode_set },
            ],
        ) == if lit && mode_set {
            WiiStage::Stream
        } else {
            WiiStage::Ended
        },
{
    let a = seq![WiiEvent::Written { ok: lit }];
    let b = a.push(WiiEvent::SensorsReady);
    let c = b.push(WiiEvent::Written { ok: mode_set });
    reveal_with_fuel(stage_after, 4);
    assert(a.drop_last() =~= Seq::<WiiEvent>::empty());
    assert(b.drop_last() =~= a);
    assert(c.drop_last() =~= b);
    assert(c =~= seq![
        WiiEvent::Written { ok: lit },
        WiiEvent::SensorsReady,
        WiiEvent::Written { ok: mode_set },
    ]);
}

/// The way of a remote, step by step: lit, set up, put in motion mode, then
/// read from for as long as reading works.
pub proof fn law_stages(stage: WiiStage, event: WiiEvent)
    ensures
        next_stage(stage, event) == WiiStage::Sensors <==> stage == WiiStage::Light && event
            == (WiiEvent::Written { ok: true }),
        next_stage(stage, event) == WiiStage::Mode <==> stage == WiiStage::Sensors && event
            is SensorsReady,
        next_stage(stage, event) == WiiStage::Stream <==> (stage == WiiStage::Mode && event
            == (WiiEvent::Written { ok: true })) || (stage == WiiStage::Stream && (event is Status
            || event is Data || event is OtherReport || event is Written)),
        next_stage(stage, event) != WiiStage::Light,
{
}

/// What is done next: each stage of the setup has its own write; in the stream a
/// status report makes the mode be set again, a report in mode 0x35 gives a
/// sample, and anything else is read over.
pub proof fn law_actions(stage: WiiStage, event: WiiEvent, action: WiiAction)
    requires
        is_action(stage, event, action),
    ensures
        ({
            let next = next_stage(stage, event);
            &&& action == WiiAction::SetUpSensors <==> next == WiiStage::Sensors
            &&& action == WiiAction::SetMode <==> next == WiiStage::Mode
            &&& action == WiiAction::Leave <==> next == WiiStage::Ended
            &&& action == WiiAction::RepeatMode <==> next == WiiStage::Stream && event is Status
            &&& action is Sample <==> next == WiiStage::Stream && event is Data && event->mode
                == 0x35
            &&& next == WiiStage::Stream && !(event is Status) && !(event is Data && event->mode
                == 0x35) ==> action == WiiAction::Read
        }),
{
}

/// The gyroscope bytes of a sample are bytes 5 to 10 of its report.
pub proof fn law_gyro_bytes(data: Seq<u8>, k: int)
    requires
        data.len() == 21,
        0 <= k < 6,
    ensures
        gyro_bytes(data).len() == 6,
        gyro_bytes(data)[k] == data[5 + k],
{
}

} // verus!
