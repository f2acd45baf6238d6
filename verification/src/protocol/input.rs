//! Reports from the controller to the host.

use crate::error::ProtocolError;
use crate::protocol::{spec_decode_output, Direction, OutputModel};
use vstd::prelude::*;

verus! {

/// Report identifier of a reply to a subcommand.
pub const SUBCOMMAND_REPLY_ID: u8 = 0x21;

/// Battery level and connection information of an idle, fully charged
/// controller.
pub const BATTERY_CONNECTION: u8 = 0x8E;

/// Acknowledgement byte of an answer that refuses its subcommand.
pub const NACK: u8 = 0x00;

/// Vibrator byte of an idle controller.
pub const VIBRATOR_IDLE: u8 = 0x80;

/// Represents the answer to a subcommand inside an input report.
#[derive(Clone, Debug, PartialEq, Eq)]
pub struct Reply {
    /// Represents the acknowledgement byte.
    pub ack: u8,
    /// Represents the identifier of the subcommand that is answered.
    pub subcommand: u8,
    /// Represents the payload of the answer.
    pub data: Vec<u8>,
}

/// What a `Reply` holds, as plain values.
pub struct ReplyModel {
    pub ack: u8,
    pub subcommand: u8,
    pub data: Seq<u8>,
}

impl View for Reply {
    type V = ReplyModel;

    open spec fn view(&self) -> ReplyModel {
        ReplyModel { ack: self.ack, subcommand: self.subcommand, data: self.data@ }
    }
}

/// Represents a report from the controller to the host.
#[derive(Clone, Debug, PartialEq, Eq)]
pub struct InputReport {
    /// Represents the report identifier.
    pub report_id: u8,
    /// Represents the timer, which echoes that of the host.
    pub timer: u8,
    /// Represents the battery level and the connection information.
    pub battery: u8,
    /// Represents the state of the buttons.
    pub buttons: [u8; 3],
    /// Represents the state of the left stick.
    pub left_stick: [u8; 3],
    /// Represents the state of the right stick.
    pub right_stick: [u8; 3],
    /// Represents the vibrator byte.
    pub vibrator: u8,
    /// Represents the answer to a subcommand, if the report carries one.
    pub reply: Option<Reply>,
}

/// What an `InputReport` holds, as plain values.
pub struct InputReportModel {
    pub report_id: u8,
    pub timer: u8,
    pub battery: u8,
    pub buttons: Seq<u8>,
    pub left_stick: Seq<u8>,
    pub right_stick: Seq<u8>,
    pub vibrator: u8,
    pub reply: Option<ReplyModel>,
}

impl View for InputReport {
    type V = InputReportModel;

    open spec fn view(&self) -> InputReportModel {
        InputReportModel {
            report_id: self.report_id,
            timer: self.timer,
            battery: self.battery,
            buttons: self.buttons@,
            left_stick: self.left_stick@,
            right_stick: self.right_stick@,
            vibrator: self.vibrator,
            reply: match self.reply {
                Some(reply) => Some(reply@),
                None => None,
            },
        }
    }
}

impl InputReportModel {
    /// The button state and both stick states have three bytes each.
    pub open spec fn wf(self) -> bool {
        &&& self.buttons.len() == 3
        &&& self.left_stick.len() == 3
        &&& self.right_stick.len() == 3
    }

    /// The report that answers a subcommand of an idle controller: no
    /// button pressed, both sticks centred.
    pub open spec fn answer(timer: u8, ack: u8, subcommand: u8, data: Seq<u8>) -> InputReportModel {
        InputReportModel {
            report_id: SUBCOMMAND_REPLY_ID,
            timer: timer,
            battery: BATTERY_CONNECTION,
            buttons: seq![0u8, 0u8, 0u8],
            left_stick: seq![0x00u8, 0x08u8, 0x80u8],
            right_stick: seq![0x00u8, 0x08u8, 0x80u8],
            vibrator: VIBRATOR_IDLE,
            reply: Some(ReplyModel { ack: ack, subcommand: subcommand, data: data }),
        }
    }
}

impl InputReport {
    /// Creates the report that refuses a subcommand: an answer whose
    /// acknowledgement is zero and that has no payload.
    pub fn refusal(timer: u8, subcommand: u8) -> (report: InputReport)
        ensures
            report@ == InputReportModel::answer(timer, NACK, subcommand, Seq::<u8>::empty()),
    {
        InputReport::answer(timer, NACK, subcommand, Vec::new())
    }

    /// Creates the report that answers a subcommand of an idle controller.
    pub fn answer(timer: u8, ack: u8, subcommand: u8, data: Vec<u8>) -> (report: InputReport)
        ensures
            report@ == InputReportModel::answer(timer, ack, subcommand, data@),
    {
        let report = InputReport {
            report_id: SUBCOMMAND_REPLY_ID,
            timer,
            battery: BATTERY_CONNECTION,
            buttons: [0, 0, 0],
            left_stick: [0x00, 0x08, 0x80],
            right_stick: [0x00, 0x08, 0x80],
            vibrator: VIBRATOR_IDLE,
            reply: Some(Reply { ack, subcommand, data }),
        };
        proof {
            let m = InputReportModel::answer(timer, ack, subcommand, data@);
            assert(report@.buttons =~= m.buttons);
            assert(report@.left_stick =~= m.left_stick);
            assert(report@.right_stick =~= m.right_stick);
        }
        report
    }
}

/// The frame of an input report: the input tag, the report identifier, the
/// timer, the battery byte, the buttons, both sticks and the vibrator byte,
/// followed, where the report answers a subcommand, by the acknowledgement,
/// the subcommand identifier and the payload of the answer.
pub open spec fn spec_encode_input(r: InputReportModel) -> Seq<u8> {
    seq![Direction::Input.spec_tag(), r.report_id, r.timer, r.battery] + r.buttons + r.left_stick
        + r.right_stick + seq![r.vibrator] + (match r.reply {
        Some(reply) => seq![reply.ack, reply.subcommand] + reply.data,
        None => Seq::<u8>::empty(),
    })
}

/// Serializes a report for the host.
pub fn encode_input(report: &InputReport) -> (bytes: Vec<u8>)
    ensures
        bytes@ == spec_encode_input(report@),
{
    let mut bytes: Vec<u8> = Vec::new();
    bytes.push(Direction::Input.tag());
    bytes.push(report.report_id);
    bytes.push(report.timer);
    bytes.push(report.battery);
    bytes.extend_from_slice(report.buttons.as_slice());
    bytes.extend_from_slice(report.left_stick.as_slice());
    bytes.extend_from_slice(report.right_stick.as_slice());
    bytes.push(report.vibrator);
    match &report.reply {
        Some(reply) => {
            bytes.push(reply.ack);
            bytes.push(reply.subcommand);
            bytes.extend_from_slice(reply.data.as_slice());
        },
        None => {},
    }
    assert(bytes@ =~= spec_encode_input(report@));
    bytes
}

/// The frame of an input report is never taken for one of the host: it
/// starts with the input tag, and decoding it as an output report fails on
/// the direction.
pub proof fn lemma_input_frame_is_no_output_frame(r: InputReportModel)
    requires
        r.wf(),
    ensures
        spec_encode_input(r)[0] == 0xA2,
        spec_decode_output(spec_encode_input(r)) == Err::<OutputModel, ProtocolError>(
            ProtocolError::InvalidDirection,
        ),
{
    let bytes = spec_encode_input(r);
    assert(bytes.len() >= 14);
    assert(bytes[0] == 0xA2);
}

} // verus!
