//! Support for Nintendo Switch controller protocol.

use crate::error::{Error, ErrorModel, ProtocolError};
use vstd::prelude::*;
use vstd::slice::{slice_subrange, slice_to_vec};

pub mod engine;
pub mod input;

verus! {

/// Length of the header that every output report carries.
pub const OUTPUT_HEADER_LEN: usize = 12;

/// Enumeration for direction.
#[derive(Clone, Copy, Debug, PartialEq, Eq, Structural)]
pub enum Direction {
    /// Represents the input (from controller to device) direction.
    Input,
    /// Represents the output (from device to controller) direction.
    Output,
}

impl Direction {
    /// The first byte of every report that travels in this direction.
    pub open spec fn spec_tag(self) -> u8 {
        match self {
            Direction::Input => 0xA2,
            Direction::Output => 0xA1,
        }
    }

    /// Returns the first byte of every report that travels in this direction.
    pub fn tag(self) -> (tag: u8)
        ensures
            tag == self.spec_tag(),
    {
        match self {
            Direction::Input => 0xA2,
            Direction::Output => 0xA1,
        }
    }

    /// Returns the name of the direction.
    pub fn to_text(self) -> (text: String)
        ensures
            text@ == (match self {
                Direction::Input => "Input"@,
                Direction::Output => "Output"@,
            }),
    {
        match self {
            Direction::Input => String::from_str("Input"),
            Direction::Output => String::from_str("Output"),
        }
    }
}

/// Enumeration for types.
#[derive(Clone, Copy, Debug, PartialEq, Eq, Structural)]
pub enum Type {
    /// Represents the subcommand.
    Subcommand,
    /// Represents the rumble.
    Rumble,
    /// Represents the request of IR, NFC, or MCU data.
    RequestIrNfcMcu,
}

impl Type {
    /// The report type that the byte `value` stands for, if any.
    pub open spec fn spec_from_code(value: u8) -> Option<Type> {
        if value == 0x01 {
            Some(Type::Subcommand)
        } else if value == 0x10 {
            Some(Type::Rumble)
        } else if value == 0x11 {
            Some(Type::RequestIrNfcMcu)
        } else {
            None
        }
    }

    /// The byte that stands for the report type on the wire.
    pub open spec fn spec_code(self) -> u8 {
        match self {
            Type::Subcommand => 0x01,
            Type::Rumble => 0x10,
            Type::RequestIrNfcMcu => 0x11,
        }
    }

    /// Returns the byte that stands for the report type on the wire.
    pub fn code(self) -> (code: u8)
        ensures
            code == self.spec_code(),
            Type::spec_from_code(code) == Some(self),
    {
        match self {
            Type::Subcommand => 0x01,
            Type::Rumble => 0x10,
            Type::RequestIrNfcMcu => 0x11,
        }
    }
}

impl TryFrom<u8> for Type {
    type Error = Error;

    /// Reads a report type from its byte; any byte but the three known ones
    /// is an invalid type.
    fn try_from(value: u8) -> (r: Result<Type, Error>)
        ensures
            match Type::spec_from_code(value) {
                Some(t) => r == Ok::<Type, Error>(t),
                None => r is Err && r.unwrap_err()@ == ErrorModel::protocol(
                    ProtocolError::InvalidType,
                ),
            },
    {
        match value {
            0x01 => Ok(Type::Subcommand),
            0x10 => Ok(Type::Rumble),
            0x11 => Ok(Type::RequestIrNfcMcu),
            _ => Err(Error::protocol(ProtocolError::InvalidType)),
        }
    }
}

/// The conversion is described by the contract of `try_from` itself, over
/// the view of the error, and not by a value of `try_from_spec`.
impl vstd::std_specs::convert::TryFromSpecImpl<u8> for Type {
    open spec fn obeys_try_from_spec() -> bool {
        false
    }

    open spec fn try_from_spec(value: u8) -> Result<Type, Error> {
        arbitrary()
    }
}

/// Enumeration for subcommands.
#[derive(Clone, Copy, Debug, PartialEq, Eq, Structural)]
pub enum Subcommand {
    /// Asks for the firmware version, the controller type and the address.
    RequestDeviceInfo,
    /// Sets the mode of the input reports.
    SetInputReportMode,
    /// Reads from the non-volatile memory.
    SpiFlashRead,
    /// Sets the pattern of the player lights.
    SetPlayerLights,
    /// Switches the rumble on or off.
    EnableVibration,
}

impl Subcommand {
    /// The subcommand that the identifier `id` stands for, if any.
    pub open spec fn spec_from_id(id: u8) -> Option<Subcommand> {
        if id == 0x02 {
            Some(Subcommand::RequestDeviceInfo)
        } else if id == 0x03 {
            Some(Subcommand::SetInputReportMode)
        } else if id == 0x10 {
            Some(Subcommand::SpiFlashRead)
        } else if id == 0x30 {
            Some(Subcommand::SetPlayerLights)
        } else if id == 0x48 {
            Some(Subcommand::EnableVibration)
        } else {
            None
        }
    }

    /// The identifier of the subcommand on the wire.
    pub open spec fn spec_id(self) -> u8 {
        match self {
            Subcommand::RequestDeviceInfo => 0x02,
            Subcommand::SetInputReportMode => 0x03,
            Subcommand::SpiFlashRead => 0x10,
            Subcommand::SetPlayerLights => 0x30,
            Subcommand::EnableVibration => 0x48,
        }
    }

    /// Returns the identifier of the subcommand on the wire.
    pub fn id(self) -> (id: u8)
        ensures
            id == self.spec_id(),
            Subcommand::spec_from_id(id) == Some(self),
    {
        match self {
            Subcommand::RequestDeviceInfo => 0x02,
            Subcommand::SetInputReportMode => 0x03,
            Subcommand::SpiFlashRead => 0x10,
            Subcommand::SetPlayerLights => 0x30,
            Subcommand::EnableVibration => 0x48,
        }
    }

    /// Reads a subcommand from its identifier; an identifier outside the
    /// table is an unknown subcommand.
    pub fn from_id(id: u8) -> (r: Result<Subcommand, Error>)
        ensures
            match Subcommand::spec_from_id(id) {
                Some(s) => r == Ok::<Subcommand, Error>(s),
                None => r is Err && r.unwrap_err()@ == ErrorModel::protocol(
                    ProtocolError::UnknownSubcommand,
                ),
            },
    {
        match id {
            0x02 => Ok(Subcommand::RequestDeviceInfo),
            0x03 => Ok(Subcommand::SetInputReportMode),
            0x10 => Ok(Subcommand::SpiFlashRead),
            0x30 => Ok(Subcommand::SetPlayerLights),
            0x48 => Ok(Subcommand::EnableVibration),
            _ => Err(Error::protocol(ProtocolError::UnknownSubcommand)),
        }
    }
}

/// Enumeration for the controllers that can be emulated.
#[derive(Clone, Copy, Debug, PartialEq, Eq, Structural)]
pub enum ControllerType {
    /// Represents the left Joy-Con.
    JoyConL,
    /// Represents the right Joy-Con.
    JoyConR,
    /// Represents the Pro Controller.
    ProController,
}

impl ControllerType {
    /// The name under which the controller is advertised.
    pub open spec fn spec_name(self) -> Seq<char> {
        match self {
            ControllerType::JoyConL => "Joy-Con (L)"@,
            ControllerType::JoyConR => "Joy-Con (R)"@,
            ControllerType::ProController => "Pro Controller"@,
        }
    }

    /// Returns the name under which the controller is advertised.
    pub fn name(self) -> (name: &'static str)
        ensures
            name@ == self.spec_name(),
    {
        match self {
            ControllerType::JoyConL => "Joy-Con (L)",
            ControllerType::JoyConR => "Joy-Con (R)",
            ControllerType::ProController => "Pro Controller",
        }
    }

    /// The byte that tells the controller type in a device-info reply.
    pub open spec fn spec_id(self) -> u8 {
        match self {
            ControllerType::JoyConL => 0x01,
            ControllerType::JoyConR => 0x02,
            ControllerType::ProController => 0x03,
        }
    }

    /// Returns the byte that tells the controller type in a device-info reply.
    pub fn id(self) -> (id: u8)
        ensures
            id == self.spec_id(),
    {
        match self {
            ControllerType::JoyConL => 0x01,
            ControllerType::JoyConR => 0x02,
            ControllerType::ProController => 0x03,
        }
    }

    /// The word that selects the controller type on a command line.
    pub open spec fn spec_flag(self) -> Seq<char> {
        match self {
            ControllerType::JoyConL => "JOY_CON_L"@,
            ControllerType::JoyConR => "JOY_CON_R"@,
            ControllerType::ProController => "PRO_CONTROLLER"@,
        }
    }

    /// Returns the word that selects the controller type on a command line.
    pub fn flag(self) -> (flag: &'static str)
        ensures
            flag@ == self.spec_flag(),
    {
        match self {
            ControllerType::JoyConL => "JOY_CON_L",
            ControllerType::JoyConR => "JOY_CON_R",
            ControllerType::ProController => "PRO_CONTROLLER",
        }
    }
}

impl ControllerType {
    /// The controller type that a word on a command line selects, if any.
    pub open spec fn spec_from_flag(word: Seq<char>) -> Option<ControllerType> {
        if word == ControllerType::JoyConL.spec_flag() {
            Some(ControllerType::JoyConL)
        } else if word == ControllerType::JoyConR.spec_flag() {
            Some(ControllerType::JoyConR)
        } else if word == ControllerType::ProController.spec_flag() {
            Some(ControllerType::ProController)
        } else {
            None
        }
    }

    /// Reads a controller type from the word that selects it on a command
    /// line.
    pub fn from_flag(word: &str) -> (controller_type: Option<ControllerType>)
        ensures
            controller_type == ControllerType::spec_from_flag(word@),
    {
        let word = String::from_str(word);
        if word == String::from_str(ControllerType::JoyConL.flag()) {
            Some(ControllerType::JoyConL)
        } else if word == String::from_str(ControllerType::JoyConR.flag()) {
            Some(ControllerType::JoyConR)
        } else if word == String::from_str(ControllerType::ProController.flag()) {
            Some(ControllerType::ProController)
        } else {
            None
        }
    }
}

/// What an output report holds, as plain values.
pub struct OutputModel {
    pub t: Type,
    pub timer: u8,
    pub left_rumble: Seq<u8>,
    pub right_rumble: Seq<u8>,
    pub subcommand: Option<u8>,
    pub data: Option<Seq<u8>>,
}

impl OutputModel {
    /// Both rumble payloads have four bytes, a subcommand identifier is
    /// present exactly in a subcommand report, and trailing data in every
    /// report but a rumble report.
    pub open spec fn wf(self) -> bool {
        &&& self.left_rumble.len() == 4
        &&& self.right_rumble.len() == 4
        &&& (self.subcommand is Some <==> self.t == Type::Subcommand)
        &&& (self.data is Some <==> self.t != Type::Rumble)
    }
}

/// The frame of an output report: the direction tag, the type, the timer,
/// both rumble payloads, the subcommand identifier (zero where there is
/// none) and the trailing data.
pub open spec fn spec_encode_output(o: OutputModel) -> Seq<u8> {
    seq![Direction::Output.spec_tag(), o.t.spec_code(), o.timer] + o.left_rumble + o.right_rumble
        + seq![
        match o.subcommand {
            Some(id) => id,
            None => 0u8,
        },
    ] + (match o.data {
        Some(data) => data,
        None => Seq::<u8>::empty(),
    })
}

/// What a frame from the host decodes to: a frame under twelve bytes has an
/// invalid length, one that does not start with the output tag an invalid
/// direction, one whose second byte is no report type an invalid type; any
/// other frame gives its timer, its rumble payloads and, by its type, its
/// subcommand identifier and trailing data.
pub open spec fn spec_decode_output(bytes: Seq<u8>) -> Result<OutputModel, ProtocolError> {
    if bytes.len() < 12 {
        Err(ProtocolError::InvalidLength)
    } else if bytes[0] != Direction::Output.spec_tag() {
        Err(ProtocolError::InvalidDirection)
    } else {
        match Type::spec_from_code(bytes[1]) {
            None => Err(ProtocolError::InvalidType),
            Some(t) => Ok(
                OutputModel {
                    t: t,
                    timer: bytes[2],
                    left_rumble: bytes.subrange(3, 7),
                    right_rumble: bytes.subrange(7, 11),
                    subcommand: if t == Type::Subcommand {
                        Some(bytes[11])
                    } else {
                        None
                    },
                    data: if t == Type::Rumble {
                        None
                    } else {
                        Some(bytes.subrange(12, bytes.len() as int))
                    },
                },
            ),
        }
    }
}

/// Represents a report from the host to the controller.
#[derive(Clone, Debug, PartialEq, Eq)]
pub struct Output {
    pub direction: Direction,
    pub t: Type,
    pub timer: u8,
    pub left_rumble: [u8; 4],
    pub right_rumble: [u8; 4],
    pub subcommand: Option<u8>,
    pub data: Option<Vec<u8>>,
}

impl View for Output {
    type V = OutputModel;

    open spec fn view(&self) -> OutputModel {
        OutputModel {
            t: self.t,
            timer: self.timer,
            left_rumble: self.left_rumble@,
            right_rumble: self.right_rumble@,
            subcommand: self.subcommand,
            data: match self.data {
                Some(data) => Some(data@),
                None => None,
            },
        }
    }
}

impl Output {
    /// Serializes the report into a frame.
    pub fn to_bytes(&self) -> (bytes: Vec<u8>)
        ensures
            bytes@ == spec_encode_output(self@),
    {
        let mut bytes: Vec<u8> = Vec::new();
        bytes.push(Direction::Output.tag());
        bytes.push(self.t.code());
        bytes.push(self.timer);
        bytes.extend_from_slice(self.left_rumble.as_slice());
        bytes.extend_from_slice(self.right_rumble.as_slice());
        match self.subcommand {
            Some(id) => bytes.push(id),
            None => bytes.push(0),
        }
        match &self.data {
            Some(data) => bytes.extend_from_slice(data.as_slice()),
            None => {},
        }
        assert(bytes@ =~= spec_encode_output(self@));
        bytes
    }
}

impl<'a> TryFrom<&'a [u8]> for Output {
    type Error = Error;

    /// Parses a frame from the host.
    fn try_from(value: &'a [u8]) -> (r: Result<Output, Error>)
        ensures
            match spec_decode_output(value@) {
                Ok(o) => r is Ok && r.unwrap()@ == o && r.unwrap().direction == Direction::Output,
                Err(e) => r is Err && r.unwrap_err()@ == ErrorModel::protocol(e),
            },
    {
        if value.len() < OUTPUT_HEADER_LEN {
            return Err(Error::protocol(ProtocolError::InvalidLength));
        }
        // Direction

        if value[0] != Direction::Output.tag() {
            return Err(Error::protocol(ProtocolError::InvalidDirection));
        }
        // Type

        let t: Type = match Type::try_from(value[1]) {
            Ok(t) => t,
            Err(e) => {
                return Err(e);
            },
        };

        // Timer
        let timer: u8 = value[2];

        // Rumble
        let left_rumble: [u8; 4] = [value[3], value[4], value[5], value[6]];
        let right_rumble: [u8; 4] = [value[7], value[8], value[9], value[10]];

        // Subcommand and data
        let subcommand: Option<u8> = match t {
            Type::Subcommand => Some(value[11]),
            _ => None,
        };
        let data: Option<Vec<u8>> = match t {
            Type::Rumble => None,
            _ => Some(slice_to_vec(slice_subrange(value, OUTPUT_HEADER_LEN, value.len()))),
        };
        let output = Output {
            direction: Direction::Output,
            t,
            timer,
            left_rumble,
            right_rumble,
            subcommand,
            data,
        };
        proof {
            let o = spec_decode_output(value@).unwrap();
            assert(output@.left_rumble =~= o.left_rumble);
            assert(output@.right_rumble =~= o.right_rumble);
            if t != Type::Rumble {
                assert(output@.data.unwrap() =~= o.data.unwrap());
            }
        }
        Ok(output)
    }
}

/// The conversion is described by the contract of `try_from` itself, over
/// the views of the report and of the error, and not by a value of
/// `try_from_spec`.
impl<'a> vstd::std_specs::convert::TryFromSpecImpl<&'a [u8]> for Output {
    open spec fn obeys_try_from_spec() -> bool {
        false
    }

    open spec fn try_from_spec(value: &'a [u8]) -> Result<Output, Error> {
        arbitrary()
    }
}

/// Parses a frame from the host.
pub fn decode_output(bytes: &[u8]) -> (r: Result<Output, Error>)
    ensures
        match spec_decode_output(bytes@) {
            Ok(o) => r is Ok && r.unwrap()@ == o && r.unwrap().direction == Direction::Output,
            Err(e) => r is Err && r.unwrap_err()@ == ErrorModel::protocol(e),
        },
{
    Output::try_from(bytes)
}

/// A frame shorter than the header never decodes: its length is invalid.
pub proof fn lemma_short_frame_is_rejected(bytes: Seq<u8>)
    requires
        bytes.len() < 12,
    ensures
        spec_decode_output(bytes) == Err::<OutputModel, ProtocolError>(
            ProtocolError::InvalidLength,
        ),
{
}

/// A frame of full length that does not start with the output tag never
/// decodes: its direction is invalid.
pub proof fn lemma_wrong_direction_is_rejected(bytes: Seq<u8>)
    requires
        bytes.len() >= 12,
        bytes[0] != 0xA1,
    ensures
        spec_decode_output(bytes) == Err::<OutputModel, ProtocolError>(
            ProtocolError::InvalidDirection,
        ),
{
}

/// A frame of full length with the output tag whose second byte is none of
/// the three report types never decodes: its type is invalid.
pub proof fn lemma_unknown_type_is_rejected(bytes: Seq<u8>)
    requires
        bytes.len() >= 12,
        bytes[0] == 0xA1,
        bytes[1] != 0x01,
        bytes[1] != 0x10,
        bytes[1] != 0x11,
    ensures
        spec_decode_output(bytes) == Err::<OutputModel, ProtocolError>(ProtocolError::InvalidType),
{
}

/// Decoding the frame of a well-formed output report gives the report back:
/// its type, timer, rumble payloads, subcommand identifier and data.
pub proof fn lemma_decode_inverts_encode(o: OutputModel)
    requires
        o.wf(),
    ensures
        spec_decode_output(spec_encode_output(o)) == Ok::<OutputModel, ProtocolError>(o),
{
    let bytes = spec_encode_output(o);
    let tail = match o.data {
        Some(data) => data,
        None => Seq::<u8>::empty(),
    };
    assert(bytes.len() == 12 + tail.len());
    assert(bytes[0] == 0xA1);
    assert(bytes[1] == o.t.spec_code());
    assert(Type::spec_from_code(o.t.spec_code()) == Some(o.t));
    assert(bytes[2] == o.timer);
    assert(bytes.subrange(3, 7) =~= o.left_rumble);
    assert(bytes.subrange(7, 11) =~= o.right_rumble);
    assert(bytes.subrange(12, bytes.len() as int) =~= tail);
    if o.t == Type::Subcommand {
        assert(bytes[11] == o.subcommand.unwrap());
    }
    let d = spec_decode_output(bytes).unwrap();
    assert(d.subcommand == o.subcommand);
    assert(d.data == o.data);
}

/// Whatever decodes is well formed: the rumble payloads have four bytes
/// each, and a subcommand identifier is present exactly in a subcommand
/// report.
pub proof fn lemma_decoded_is_well_formed(bytes: Seq<u8>)
    requires
        spec_decode_output(bytes) is Ok,
    ensures
        spec_decode_output(bytes).unwrap().wf(),
{
}

} // verus!
