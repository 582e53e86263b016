//! One emulated Pro Controller on the USB bus.
//!
//! The host talks to a slot in output reports; the slot answers them, and
//! sends an input report at every tick while the host listens. The host opens
//! the stream either by the USB command `0x80 0x04` or by selecting report
//! mode `0x30`. Losing the connection closes it again.

use vstd::prelude::*;

use crate::models;
use crate::models::{Rumble, SwitchInput};
use crate::rumble;
use crate::rumble::{decode_rumble, hdr_reset_slot, HdrState};
use crate::switch_proto;
use crate::switch_proto::{
    device_info_response, device_info_subcommand_response, input_report, pairing_response,
    set_report_mode_response, simple_ack_response, spi_read_response, subcommand_response,
};

verus! {

/// State of one slot's connection to the host.
#[derive(Clone, Copy, Debug, PartialEq, Eq, Structural)]
pub struct SlotLink {
    pub slot: usize,
    /// The host asked for input reports by USB command.
    pub input_active: bool,
    /// The host selected the full report mode.
    pub mode_selected: bool,
    /// Number of the last input report, wrapping.
    pub count: u8,
    /// The input to report next.
    pub latest: SwitchInput,
    pub hdr: HdrState,
}

/// What to do about a report from the host.
#[derive(Debug)]
pub enum HostAction {
    Ignore,
    /// Write this report back.
    Reply(Vec<u8>),
    /// Drive the motors of the controller on this slot.
    Rumble(Rumble),
}

/// A slot that the host has not talked to yet.
pub open spec fn fresh(slot: usize) -> SlotLink {
    SlotLink {
        slot,
        input_active: false,
        mode_selected: false,
        count: 0,
        latest: models::neutral(),
        hdr: rumble::silent(),
    }
}

/// A USB command of the host.
pub open spec fn is_usb_command(report: Seq<u8>, cmd: u8) -> bool {
    report.len() >= 2 && report[0] == 0x80 && report[1] == cmd
}

/// A subcommand of the host: an output report with rumble data in bytes 2 to
/// 9 and the subcommand behind them.
pub open spec fn is_subcommand(report: Seq<u8>, sub_cmd: u8) -> bool {
    report.len() >= 11 && report[0] == 0x01 && report[10] == sub_cmd
}

/// The host selects a report mode. The mode follows the subcommand.
pub open spec fn selects_mode(report: Seq<u8>) -> bool {
    is_subcommand(report, 0x21) && report.len() >= 12
}

/// Subcommands that are acknowledged without data: lights, motion sensor,
/// vibration and the like.
pub open spec fn plainly_acknowledged(sub_cmd: u8) -> bool {
    ||| sub_cmd == 0x03
    ||| sub_cmd == 0x04
    ||| sub_cmd == 0x08
    ||| sub_cmd == 0x30
    ||| sub_cmd == 0x38
    ||| sub_cmd == 0x40
    ||| sub_cmd == 0x41
    ||| sub_cmd == 0x48
}

/// A reply to the subcommand of `report`, with the given data.
pub open spec fn subcommand_reply(link: SlotLink, report: Seq<u8>, ack: bool, data: Seq<u8>) -> Seq<
    u8,
> {
    switch_proto::subcommand_bytes(link.count, models::neutral(), ack, report[10], data)
}

/// What the slot writes back to `report`, if anything.
pub open spec fn reply_to(link: SlotLink, report: Seq<u8>) -> Option<Seq<u8>> {
    if is_usb_command(report, 0x01) {
        Some(switch_proto::device_info_bytes(link.slot, 0x01))
    } else if is_usb_command(report, 0x02) || is_usb_command(report, 0x03) {
        Some(switch_proto::packet_bytes(0x81, report[1], Seq::<u8>::empty()))
    } else if is_subcommand(report, 0x01) {
        Some(subcommand_reply(link, report, true, switch_proto::pairing_data()))
    } else if is_subcommand(report, 0x02) {
        Some(subcommand_reply(link, report, true, switch_proto::device_info_data(link.slot)))
    } else if is_subcommand(report, 0x10) {
        match switch_proto::spi_read_data(report) {
            Some(data) => Some(subcommand_reply(link, report, true, data)),
            None => Some(subcommand_reply(link, report, false, Seq::<u8>::empty())),
        }
    } else if selects_mode(report) {
        Some(subcommand_reply(link, report, true, switch_proto::report_mode_data()))
    } else if report.len() >= 11 && report[0] == 0x01 && plainly_acknowledged(report[10]) {
        Some(subcommand_reply(link, report, true, Seq::<u8>::empty()))
    } else {
        None
    }
}

/// The slot after `report`.
pub open spec fn after_report(link: SlotLink, report: Seq<u8>) -> SlotLink {
    if is_usb_command(report, 0x04) {
        SlotLink { input_active: true, ..link }
    } else if is_usb_command(report, 0x05) {
        SlotLink { input_active: false, ..link }
    } else if selects_mode(report) && report[11] == 0x30 {
        SlotLink { mode_selected: true, ..link }
    } else if rumble::is_rumble(report) {
        SlotLink { hdr: rumble::after_rumble(report, link.hdr), ..link }
    } else {
        link
    }
}

/// The motor magnitudes that `report` asks for, if it is a rumble report.
pub open spec fn rumble_in(link: SlotLink, report: Seq<u8>) -> Option<Rumble> {
    if rumble::is_rumble(report) {
        let (left, right) = rumble::rumble_magnitudes(report, link.hdr);
        Some(Rumble { slot: link.slot, left, right })
    } else {
        None
    }
}

/// `action` is what `report` calls for.
pub open spec fn is_action_for(link: SlotLink, report: Seq<u8>, action: HostAction) -> bool {
    match action {
        HostAction::Ignore => reply_to(link, report) is None && rumble_in(link, report) is None,
        HostAction::Reply(bytes) => reply_to(link, report) == Some(bytes@),
        HostAction::Rumble(rumble) => rumble_in(link, report) == Some(rumble),
    }
}

/// The slot after its connection was lost: it waits for the host again.
pub open spec fn after_loss(link: SlotLink) -> SlotLink {
    SlotLink { input_active: false, mode_selected: false, hdr: rumble::silent(), ..link }
}

/// The slot with a new input to report, if there is one.
pub open spec fn with_input(link: SlotLink, input: Option<SwitchInput>) -> SlotLink {
    match input {
        Some(latest) => SlotLink { latest, ..link },
        None => link,
    }
}

/// The slot after a tick.
pub open spec fn after_tick(link: SlotLink, input: Option<SwitchInput>) -> SlotLink {
    let fed = with_input(link, input);
    if fed.is_open() {
        SlotLink { count: ((fed.count + 1) % 256) as u8, ..fed }
    } else {
        fed
    }
}

/// The input report of a tick, while the host listens.
pub open spec fn report_at_tick(link: SlotLink, input: Option<SwitchInput>) -> Option<Seq<u8>> {
    if link.is_open() {
        let after = after_tick(link, input);
        Some(switch_proto::input_report_bytes(after.count, after.latest))
    } else {
        None
    }
}

impl SlotLink {
    pub open spec fn wf(self) -> bool {
        self.hdr.wf()
    }

    /// The host listens for input reports.
    pub open spec fn is_open(self) -> bool {
        self.input_active || self.mode_selected
    }

    /// A slot that waits for the host.
    pub fn new(slot: usize) -> (link: SlotLink)
        ensures
            link == fresh(slot),
            link.wf(),
    {
        SlotLink {
            slot,
            input_active: false,
            mode_selected: false,
            count: 0,
            latest: SwitchInput::neutral_input(),
            hdr: HdrState::new(),
        }
    }

    /// Take in a report from the host, and tell what it calls for.
    pub fn on_host_report(&mut self, report: &[u8]) -> (action: HostAction)
        requires
            old(self).wf(),
        ensures
            final(self).wf(),
            *final(self) == after_report(*old(self), report@),
            is_action_for(*old(self), report@, action),
    {
        if report.len() < 2 {
            return HostAction::Ignore;
        }
        match report[0] {
            0x80 => self.on_usb_command(report),
            0x01 => self.on_subcommand(report),
            // 0x11 carries MCU data, no rumble.
            0x10 => match decode_rumble(report, &mut self.hdr) {
                Some((left, right)) => HostAction::Rumble(Rumble { slot: self.slot, left, right }),
                None => HostAction::Ignore,
            },
            _ => HostAction::Ignore,
        }
    }

    fn on_usb_command(&mut self, report: &[u8]) -> (action: HostAction)
        requires
            old(self).wf(),
            report@.len() >= 2,
            report@[0] == 0x80,
        ensures
            final(self).wf(),
            *final(self) == after_report(*old(self), report@),
            is_action_for(*old(self), report@, action),
    {
        match report[1] {
            0x01 => HostAction::Reply(device_info_response(self.slot, report[1])),
            0x02 | 0x03 => HostAction::Reply(simple_ack_response(report[1])),
            0x04 => {
                self.input_active = true;
                HostAction::Ignore
            },
            0x05 => {
                self.input_active = false;
                HostAction::Ignore
            },
            _ => HostAction::Ignore,
        }
    }

    fn on_subcommand(&mut self, report: &[u8]) -> (action: HostAction)
        requires
            old(self).wf(),
            report@.len() >= 2,
            report@[0] == 0x01,
        ensures
            final(self).wf(),
            *final(self) == after_report(*old(self), report@),
            is_action_for(*old(self), report@, action),
    {
        if report.len() < 11 {
            return HostAction::Ignore;
        }
        let c = self.count;
        let idle = SwitchInput::neutral_input();
        let sub_cmd = report[10];
        let no_data: [u8; 0] = [];
        assert(no_data@ =~= Seq::<u8>::empty());
        match sub_cmd {
            0x01 => HostAction::Reply(pairing_response(c, &idle, sub_cmd)),
            0x02 => HostAction::Reply(
                device_info_subcommand_response(c, &idle, self.slot, sub_cmd),
            ),
            0x03 | 0x04 | 0x08 | 0x30 | 0x38 | 0x40 | 0x41 | 0x48 => HostAction::Reply(
                subcommand_response(c, &idle, true, sub_cmd, &no_data),
            ),
            0x10 => match spi_read_response(c, &idle, report) {
                Some(reply) => HostAction::Reply(reply),
                None => HostAction::Reply(
                    subcommand_response(c, &idle, false, sub_cmd, &no_data),
                ),
            },
            0x21 => {
                if report.len() < 12 {
                    return HostAction::Ignore;
                }
                if report[11] == 0x30 {
                    self.mode_selected = true;
                }
                HostAction::Reply(set_report_mode_response(c, &idle, sub_cmd))
            },
            _ => HostAction::Ignore,
        }
    }

    /// Advance by one tick, with the latest input if it changed. Returns the
    /// input report to write while the host listens.
    pub fn tick(&mut self, input: Option<SwitchInput>) -> (report: Option<Vec<u8>>)
        ensures
            *final(self) == after_tick(*old(self), input),
            report is Some <==> old(self).is_open(),
            match report {
                Some(bytes) => report_at_tick(*old(self), input) == Some(bytes@),
                None => report_at_tick(*old(self), input) is None,
            },
    {
        if let Some(latest) = input {
            self.latest = latest;
        }
        if self.input_active || self.mode_selected {
            self.count = self.count.wrapping_add(1);
            Some(input_report(self.count, &self.latest))
        } else {
            None
        }
    }

    /// Forget what the host asked for, after a failed read or write.
    pub fn connection_lost(&mut self)
        ensures
            *final(self) == after_loss(*old(self)),
            final(self).wf(),
    {
        self.input_active = false;
        self.mode_selected = false;
        hdr_reset_slot(&mut self.hdr);
    }
}

/// The slot after a run of reports.
pub open spec fn after_reports(link: SlotLink, reports: Seq<Seq<u8>>) -> SlotLink
    decreases reports.len(),
{
    if reports.len() == 0 {
        link
    } else {
        after_report(after_reports(link, reports.drop_last()), reports.last())
    }
}

/// A report by which the host opens the input stream.
pub open spec fn opens(report: Seq<u8>) -> bool {
    is_usb_command(report, 0x04) || (selects_mode(report) && report[11] == 0x30)
}

/// A slot stays closed through any run of reports that does not open it, so
/// nothing is sent before the host asks: not at the start and not after the
/// connection was lost.
pub proof fn law_closed_until_opened(link: SlotLink, reports: Seq<Seq<u8>>)
    requires
        !link.is_open(),
        forall|i: int| 0 <= i < reports.len() ==> !opens(#[trigger] reports[i]),
    ensures
        !after_reports(link, reports).is_open(),
    decreases reports.len(),
{
    if reports.len() > 0 {
        assert forall|i: int| 0 <= i < reports.drop_last().len() implies !opens(
            #[trigger] reports.drop_last()[i],
        ) by {
            assert(reports.drop_last()[i] == reports[i]);
        }
        law_closed_until_opened(link, reports.drop_last());
        assert(reports.last() == reports[reports.len() - 1]);
    }
}

/// A fresh slot and one that lost its connection are closed.
pub proof fn law_starts_and_ends_closed(link: SlotLink)
    ensures
        !fresh(link.slot).is_open(),
        !after_loss(link).is_open(),
        after_loss(link).hdr == rumble::silent(),
{
}

/// Either way of opening works, whatever came before, also after the
/// connection was lost.
pub proof fn law_opening_opens(link: SlotLink, report: Seq<u8>)
    requires
        opens(report),
    ensures
        after_report(link, report).is_open(),
        after_report(after_loss(link), report).is_open(),
{
}

/// A slot that was opened by USB command alone is closed by `0x80 0x05`, and
/// only that or losing the connection closes a slot.
pub proof fn law_closing(link: SlotLink, report: Seq<u8>)
    requires
        link.is_open(),
    ensures
        is_usb_command(report, 0x05) && !link.mode_selected ==> !after_report(
            link,
            report,
        ).is_open(),
        !after_report(link, report).is_open() ==> is_usb_command(report, 0x05),
{
}

/// A report never touches the counter, the input or the slot number, and one
/// that the slot does not know changes nothing at all.
pub proof fn law_report_frame(link: SlotLink, report: Seq<u8>)
    ensures
        ({
            let after = after_report(link, report);
            &&& after.slot == link.slot
            &&& after.count == link.count
            &&& after.latest == link.latest
            &&& !rumble::is_rumble(report) ==> after.hdr == link.hdr
            &&& report.len() < 2 || (report[0] != 0x80 && report[0] != 0x01 && report[0] != 0x10)
                ==> after == link && reply_to(link, report) is None && rumble_in(link, report)
                is None
        }),
{
}

/// Every reply is one full report. A USB command is echoed behind `0x81`, a
/// subcommand behind the counter and the idle input.
pub proof fn law_reply_shape(link: SlotLink, report: Seq<u8>)
    requires
        reply_to(link, report) is Some,
    ensures
        ({
            let reply = reply_to(link, report)->0;
            &&& reply.len() == switch_proto::REPORT_LEN
            &&& report[0] == 0x80 ==> reply[0] == 0x81 && reply[1] == report[1]
            &&& report[0] == 0x01 ==> reply[0] == 0x21 && reply[1] == link.count && reply[14]
                == report[10] && reply.subrange(2, 13) == switch_proto::input_bytes(
                models::neutral(),
            )
            &&& report[0] == 0x80 || report[0] == 0x01
        }),
{
    if report[0] == 0x01 {
        let data = if is_subcommand(report, 0x01) {
            switch_proto::pairing_data()
        } else if is_subcommand(report, 0x02) {
            switch_proto::device_info_data(link.slot)
        } else if is_subcommand(report, 0x10) && switch_proto::spi_read_data(report) is Some {
            switch_proto::spi_read_data(report)->0
        } else if selects_mode(report) {
            switch_proto::report_mode_data()
        } else {
            Seq::<u8>::empty()
        };
        let ack = !is_subcommand(report, 0x10) || switch_proto::spi_read_data(report) is Some;
        assert(reply_to(link, report) == Some(subcommand_reply(link, report, ack, data)));
        switch_proto::law_subcommand_layout(
            link.count,
            models::neutral(),
            ack,
            report[10],
            data,
        );
    }
}

/// A report gets a reply or asks for rumble, never both.
pub proof fn law_reply_or_rumble(link: SlotLink, report: Seq<u8>)
    ensures
        reply_to(link, report) is None || rumble_in(link, report) is None,
{
}

/// While the slot is open each tick sends the latest input under the next
/// number; while it is closed the number stands still.
pub proof fn law_tick_counts(link: SlotLink, input: Option<SwitchInput>)
    ensures
        ({
            let after = after_tick(link, input);
            &&& after.is_open() == link.is_open()
            &&& link.is_open() ==> after.count == (link.count + 1) % 256
            &&& !link.is_open() ==> after.count == link.count
            &&& after.latest == match input {
                Some(latest) => latest,
                None => link.latest,
            }
        }),
{
}

/// While the slot is open the host reads the latest input out of the report of
/// each tick.
pub proof fn law_host_reads_latest(link: SlotLink, input: SwitchInput)
    requires
        link.is_open(),
    ensures
        ({
            let after = after_tick(link, Some(input));
            let report = switch_proto::input_report_bytes(after.count, after.latest);
            switch_proto::reported_input(report) == switch_proto::reported(input)
        }),
{
    let after = after_tick(link, Some(input));
    switch_proto::law_report_round_trip(after.count, after.latest);
}

/// Which reports are answered: the USB commands 1 to 3, and the subcommands
/// that a controller knows. Selecting a report mode is answered only where the
/// mode is given.
pub proof fn law_answered(link: SlotLink, report: Seq<u8>)
    ensures
        reply_to(link, report) is Some <==> {
            ||| report.len() >= 2 && report[0] == 0x80 && 1 <= report[1] <= 3
            ||| report.len() >= 11 && report[0] == 0x01 && (report[10] == 0x01 || report[10] == 0x02
                || report[10] == 0x03 || report[10] == 0x04 || report[10] == 0x08 || report[10]
                == 0x10 || report[10] == 0x30 || report[10] == 0x38 || report[10] == 0x40
                || report[10] == 0x41 || report[10] == 0x48)
            ||| report.len() >= 12 && report[0] == 0x01 && report[10] == 0x21
        },
{
}

/// The answers to the USB commands, byte by byte: the first tells the
/// controller's type and the slot's address, the others are bare.
pub proof fn law_usb_answers(link: SlotLink, report: Seq<u8>, k: int)
    requires
        report.len() >= 2,
        report[0] == 0x80,
        1 <= report[1] <= 3,
        0 <= k < 64,
    ensures
        ({
            let reply = reply_to(link, report)->0;
            &&& reply.len() == 64
            &&& reply[0] == 0x81
            &&& reply[1] == report[1]
            &&& report[1] != 1 && k >= 2 ==> reply[k] == 0
            &&& report[1] == 1 ==> {
                &&& reply[2] == 0x00 && reply[3] == 0x03
                &&& reply[4] == 0x00 && reply[5] == 0x00 && reply[6] == 0x5e && reply[7] == 0x00
                &&& reply[8] == 0x53 && reply[9] == (0x5f + link.slot) % 256
                &&& k >= 10 ==> reply[k] == 0
            }
        }),
{
    switch_proto::law_device_info_layout(link.slot, 0x01);
    switch_proto::law_packet_layout(0x81, report[1], Seq::<u8>::empty());
}

/// The idle input in a reply: no button down, both sticks centred.
pub proof fn law_idle_buffer()
    ensures
        switch_proto::input_bytes(models::neutral()) == seq![
            0x81u8,
            0x00,
            0x00,
            0x00,
            0x00,
            0x08,
            0x80,
            0x00,
            0x08,
            0x80,
            0x00,
        ],
{
    switch_proto::law_buffer_layout(models::neutral());
}

/// The answers to the subcommands, byte by byte: the counter, the idle input,
/// the acknowledge byte and the subcommand, and then what it asked for. Pairing
/// gives `03 01`; the device info is the firmware version, the type, the slot's
/// address and the colours flag; a report mode is confirmed by eight fixed
/// bytes; a refused ROM read and a plain acknowledge have no data.
pub proof fn law_subcommand_answers(link: SlotLink, report: Seq<u8>, k: int)
    requires
        report.len() >= 11,
        report[0] == 0x01,
        reply_to(link, report) is Some,
        0 <= k < 64,
    ensures
        ({
            let reply = reply_to(link, report)->0;
            let sub = report[10];
            let read = switch_proto::spi_read_data(report);
            &&& reply.len() == 64
            &&& reply[0] == 0x21
            &&& reply[1] == link.count
            &&& reply[2] == 0x81 && reply[3] == 0x00 && reply[4] == 0x00 && reply[5] == 0x00
            &&& reply[6] == 0x00 && reply[7] == 0x08 && reply[8] == 0x80
            &&& reply[9] == 0x00 && reply[10] == 0x08 && reply[11] == 0x80 && reply[12] == 0x00
            &&& reply[14] == sub
            &&& sub == 0x01 ==> {
                &&& reply[13] == 0x81
                &&& reply[15] == 0x03 && reply[16] == 0x01
                &&& k >= 17 ==> reply[k] == 0
            }
            &&& sub == 0x02 ==> {
                &&& reply[13] == 0x82
                &&& reply[15] == 0x03 && reply[16] == 0x48 && reply[17] == 0x03 && reply[18] == 0x02
                &&& reply[19] == 0x00 && reply[20] == 0x00 && reply[21] == 0x5e && reply[22] == 0x00
                &&& reply[23] == 0x53 && reply[24] == (0x5f + link.slot) % 256
                &&& reply[25] == 0x03 && reply[26] == 0x01
                &&& k >= 27 ==> reply[k] == 0
            }
            &&& sub == 0x10 && read is None ==> reply[13] == 0x00 && (k >= 15 ==> reply[k] == 0)
            &&& sub == 0x10 && read is Some ==> {
                &&& reply[13] == 0x90
                &&& k >= 15 ==> reply[k] == if k - 15 < read->0.len() {
                    read->0[k - 15]
                } else {
                    0
                }
            }
            &&& sub == 0x21 ==> {
                &&& reply[13] == 0xa1
                &&& reply[15] == 0x01 && reply[16] == 0x00 && reply[17] == 0xff && reply[18] == 0x00
                &&& reply[19] == 0x03 && reply[20] == 0x00 && reply[21] == 0x05 && reply[22] == 0x01
                &&& k >= 23 ==> reply[k] == 0
            }
            &&& sub != 0x01 && sub != 0x02 && sub != 0x10 && sub != 0x21 ==> reply[13] == 0x80 && (k
                >= 15 ==> reply[k] == 0)
        }),
{
    let sub = report[10];
    let read = switch_proto::spi_read_data(report);
    let data = if sub == 0x01 {
        switch_proto::pairing_data()
    } else if sub == 0x02 {
        switch_proto::device_info_data(link.slot)
    } else if sub == 0x10 && read is Some {
        read->0
    } else if sub == 0x21 {
        switch_proto::report_mode_data()
    } else {
        Seq::<u8>::empty()
    };
    let ack = !(sub == 0x10 && read is None);
    let reply = subcommand_reply(link, report, ack, data);
    assert(reply_to(link, report) == Some(reply));
    switch_proto::law_spi_read(report);
    switch_proto::law_mac(link.slot);
    law_idle_buffer();
    switch_proto::law_acknowledge_byte(ack, sub, data.len() > 0);
    switch_proto::law_subcommand_layout(link.count, models::neutral(), ack, sub, data);
    lemma_idle_part(reply);
}

/// The idle input, spelled out in a reply.
proof fn lemma_idle_part(reply: Seq<u8>)
    requires
        reply.len() == 64,
        reply.subrange(2, 13) == switch_proto::input_bytes(models::neutral()),
    ensures
        reply[2] == 0x81 && reply[3] == 0x00 && reply[4] == 0x00 && reply[5] == 0x00,
        reply[6] == 0x00 && reply[7] == 0x08 && reply[8] == 0x80,
        reply[9] == 0x00 && reply[10] == 0x08 && reply[11] == 0x80 && reply[12] == 0x00,
{
    law_idle_buffer();
    let idle = reply.subrange(2, 13);
    assert forall|k: int| 2 <= k < 13 implies reply[k] == #[trigger] idle[k - 2] by {}
    assert(idle[0] == reply[2] && idle[1] == reply[3] && idle[2] == reply[4]);
    assert(idle[3] == reply[5] && idle[4] == reply[6] && idle[5] == reply[7]);
    assert(idle[6] == reply[8] && idle[7] == reply[9] && idle[8] == reply[10]);
    assert(idle[9] == reply[11] && idle[10] == reply[12]);
}

/// What a report changes: `80 04` and `80 05` turn the USB stream on and off,
/// selecting mode `0x30` opens the other gate, a rumble report moves the
/// amplitudes, and nothing else changes anything.
pub proof fn law_report_effects(link: SlotLink, report: Seq<u8>)
    ensures
        ({
            let after = after_report(link, report);
            let usb = report.len() >= 2 && report[0] == 0x80;
            let mode = report.len() >= 12 && report[0] == 0x01 && report[10] == 0x21 && report[11]
                == 0x30;
            let shakes = report.len() >= 10 && report[0] == 0x10;
            &&& after.input_active == ((usb && report[1] == 4) || (link.input_active && !(usb
                && report[1] == 5)))
            &&& after.mode_selected == (mode || link.mode_selected)
            &&& !shakes ==> after.hdr == link.hdr
            &&& after.slot == link.slot && after.count == link.count && after.latest == link.latest
        }),
{
}

/// A rumble report asks for the motors of the slot's own number, each at the
/// loudest level that its word passes through from where the motor stood, and
/// leaves the motor where the word ends.
pub proof fn law_rumble_request(link: SlotLink, report: Seq<u8>, left: u32, right: u32)
    requires
        report.len() >= 10,
        report[0] == 0x10,
        left == report[2] + 0x100 * report[3] + 0x1_0000 * report[4] + 0x100_0000 * report[5],
        right == report[6] + 0x100 * report[7] + 0x1_0000 * report[8] + 0x100_0000 * report[9],
    ensures
        ({
            let lefts = rumble::frame(left, link.hdr.left);
            let rights = rumble::frame(right, link.hdr.right);
            &&& rumble_in(link, report) == Some(
                Rumble {
                    slot: link.slot,
                    left: rumble::magnitude(rumble::loudest(lefts)),
                    right: rumble::magnitude(rumble::loudest(rights)),
                },
            )
            &&& after_report(link, report).hdr.left == lefts.last()
            &&& after_report(link, report).hdr.right == rights.last()
        }),
{
    rumble::law_report_words(report, left, right, link.hdr);
}

/// Only a report that starts with `0x10` and has ten bytes asks for rumble.
pub proof fn law_rumble_only(link: SlotLink, report: Seq<u8>)
    ensures
        rumble_in(link, report) is Some <==> report.len() >= 10 && report[0] == 0x10,
{
}

/// The stream is open while either gate is. A slot starts with both closed, at
/// number 0, with no button down and silent; losing the connection closes both
/// gates and silences the motors, and keeps the number and the input.
pub proof fn law_gates(link: SlotLink, slot: usize)
    ensures
        link.is_open() <==> link.input_active || link.mode_selected,
        fresh(slot).slot == slot && fresh(slot).count == 0,
        !fresh(slot).input_active && !fresh(slot).mode_selected,
        fresh(slot).latest == models::neutral(),
        fresh(slot).hdr == rumble::silent(),
        !after_loss(link).input_active && !after_loss(link).mode_selected,
        after_loss(link).slot == link.slot && after_loss(link).count == link.count,
        after_loss(link).latest == link.latest,
        after_loss(link).hdr == rumble::silent(),
{
}

/// A tick sends a report exactly while one of the gates is open. Its number is
/// one above the last, and for an input whose sticks are in range the host reads
/// exactly that input out of it, or, when none is new, the one before.
pub proof fn law_tick_sends(link: SlotLink, input: Option<SwitchInput>, shown: SwitchInput)
    requires
        shown == (match input {
            Some(new) => new,
            None => link.latest,
        }),
    ensures
        ({
            let sent = report_at_tick(link, input);
            &&& sent is Some <==> link.input_active || link.mode_selected
            &&& sent matches Some(report) ==> {
                &&& report.len() == 64
                &&& report[0] == 0x30
                &&& report[1] == (link.count + 1) % 256
                &&& 0 <= shown.left_stick.x <= 4095 && 0 <= shown.left_stick.y <= 4095 && 0
                    <= shown.right_stick.x <= 4095 && 0 <= shown.right_stick.y <= 4095
                    ==> switch_proto::reported_input(report) == shown
            }
        }),
{
    let after = after_tick(link, input);
    switch_proto::law_input_report_layout(after.count, after.latest);
    if 0 <= shown.left_stick.x <= 4095 && 0 <= shown.left_stick.y <= 4095 && 0
        <= shown.right_stick.x <= 4095 && 0 <= shown.right_stick.y <= 4095 {
        switch_proto::law_report_gives_input_back(after.count, shown);
    }
}

/// A tick changes nothing but the input and the number, and for an input whose
/// sticks are in range the host reads exactly that input out of its report.
pub proof fn law_tick_reports_input(link: SlotLink, input: SwitchInput)
    ensures
        ({
            let after = after_tick(link, Some(input));
            let report = switch_proto::input_report_bytes(after.count, after.latest);
            &&& after.slot == link.slot && after.hdr == link.hdr
            &&& after.input_active == link.input_active
            &&& after.mode_selected == link.mode_selected
            &&& after_tick(link, None).latest == link.latest
            &&& report.len() == 64 && report[0] == 0x30
            &&& link.input_active || link.mode_selected ==> report[1] == (link.count + 1) % 256
            &&& 0 <= input.left_stick.x <= 4095 && 0 <= input.left_stick.y <= 4095 && 0
                <= input.right_stick.x <= 4095 && 0 <= input.right_stick.y <= 4095
                ==> switch_proto::reported_input(report) == input
        }),
{
    let after = after_tick(link, Some(input));
    switch_proto::law_input_report_layout(after.count, after.latest);
    if 0 <= input.left_stick.x <= 4095 && 0 <= input.left_stick.y <= 4095 && 0
        <= input.right_stick.x <= 4095 && 0 <= input.right_stick.y <= 4095 {
        switch_proto::law_report_gives_input_back(after.count, after.latest);
    }
}

/// What is done about a report: it is answered with the slot's reply if it has
/// one, played if it is rumble, and ignored only if it is neither.
pub proof fn law_actions(link: SlotLink, report: Seq<u8>, action: HostAction)
    requires
        is_action_for(link, report, action),
    ensures
        action is Ignore <==> reply_to(link, report) is None && rumble_in(link, report) is None,
        action is Reply <==> reply_to(link, report) is Some,
        action is Rumble <==> rumble_in(link, report) is Some,
        action matches HostAction::Reply(bytes) ==> Some(bytes@) == reply_to(link, report),
        action matches HostAction::Rumble(rumble) ==> Some(rumble) == rumble_in(link, report),
{
    law_reply_or_rumble(link, report);
}

} // verus!
