//! Replies to the subcommands of the host.

use crate::error::{Error, ErrorKind, ErrorModel, ProtocolError};
use crate::protocol::input::{
    encode_input, spec_encode_input, InputReport, InputReportModel, NACK,
};
use crate::protocol::{
    decode_output, spec_decode_output, ControllerType, Output, OutputModel, Subcommand,
};
use vstd::prelude::*;
use vstd::slice::slice_subrange;

verus! {

/// Size of the simulated non-volatile memory.
pub const FLASH_SIZE: usize = 0x80000;

/// Byte that fills the simulated non-volatile memory.
pub const FLASH_ERASED: u8 = 0xFF;

/// Input-report mode of a controller that has not been told another one.
pub const DEFAULT_INPUT_MODE: u8 = 0x3F;

/// Acknowledgement of a subcommand whose reply has no payload.
pub const ACK: u8 = 0x80;

/// Acknowledgement of a device-info request.
pub const ACK_DEVICE_INFO: u8 = 0x82;

/// Acknowledgement of a flash read.
pub const ACK_FLASH_READ: u8 = 0x90;

/// Represents what the host has set on the controller during one session.
#[derive(Clone, Debug, PartialEq, Eq)]
pub struct SubcommandState {
    /// Represents the current input-report mode.
    pub mode: u8,
    /// Represents whether the rumble is enabled.
    pub rumble_enabled: bool,
    /// Represents the last rumble payload for the left side.
    pub left_rumble: [u8; 4],
    /// Represents the last rumble payload for the right side.
    pub right_rumble: [u8; 4],
    /// Represents the pattern of the player lights.
    pub player_lights: u8,
    /// Represents the simulated non-volatile memory.
    pub flash: Vec<u8>,
}

/// What a `SubcommandState` holds, as plain values.
pub struct SubcommandStateModel {
    pub mode: u8,
    pub rumble_enabled: bool,
    pub left_rumble: Seq<u8>,
    pub right_rumble: Seq<u8>,
    pub player_lights: u8,
    pub flash: Seq<u8>,
}

impl View for SubcommandState {
    type V = SubcommandStateModel;

    open spec fn view(&self) -> SubcommandStateModel {
        SubcommandStateModel {
            mode: self.mode,
            rumble_enabled: self.rumble_enabled,
            left_rumble: self.left_rumble@,
            right_rumble: self.right_rumble@,
            player_lights: self.player_lights,
            flash: self.flash@,
        }
    }
}

impl SubcommandStateModel {
    /// The state at the start of a session: the default mode, rumble off and
    /// silent, no player light, an erased memory.
    pub open spec fn initial() -> SubcommandStateModel {
        SubcommandStateModel {
            mode: DEFAULT_INPUT_MODE,
            rumble_enabled: false,
            left_rumble: seq![0u8, 0u8, 0u8, 0u8],
            right_rumble: seq![0u8, 0u8, 0u8, 0u8],
            player_lights: 0,
            flash: Seq::new(FLASH_SIZE as nat, |i: int| FLASH_ERASED),
        }
    }

    /// The state once the rumble payloads of an output report are taken over.
    pub open spec fn with_rumble(self, left: Seq<u8>, right: Seq<u8>) -> SubcommandStateModel {
        SubcommandStateModel { left_rumble: left, right_rumble: right, ..self }
    }
}

/// The offset that a flash read asks for: the first four bytes of its
/// payload, least significant byte first.
pub open spec fn spec_flash_offset(payload: Seq<u8>) -> int
    recommends
        payload.len() >= 4,
{
    payload[0] + payload[1] * 0x100 + payload[2] * 0x1_0000 + payload[3] * 0x100_0000
}

/// What a `Protocol` holds, as plain values.
pub struct ProtocolModel {
    pub controller_type: ControllerType,
    pub address: Seq<u8>,
    pub state: SubcommandStateModel,
}

impl ProtocolModel {
    /// The payload of the reply to a device-info request: the firmware
    /// version, the controller type, the address of the controller and the
    /// marker that the colours are stored in the memory.
    pub open spec fn device_info(self) -> Seq<u8> {
        seq![0x03u8, 0x48u8, self.controller_type.spec_id(), 0x02u8] + self.address + seq![
            0x01u8,
            0x01u8,
        ]
    }

    /// The reply to the subcommand `id` with the given payload, and the state
    /// after it. An identifier outside the table is an unknown subcommand; a
    /// payload too short for its subcommand has an invalid length; a flash
    /// read that ends beyond the memory is out of range.
    pub open spec fn dispatch(self, timer: u8, id: u8, payload: Seq<u8>) -> Result<
        (SubcommandStateModel, InputReportModel),
        ProtocolError,
    > {
        match Subcommand::spec_from_id(id) {
            None => Err(ProtocolError::UnknownSubcommand),
            Some(Subcommand::RequestDeviceInfo) => Ok(
                (
                    self.state,
                    InputReportModel::answer(timer, ACK_DEVICE_INFO, id, self.device_info()),
                ),
            ),
            Some(Subcommand::SetInputReportMode) => if payload.len() < 1 {
                Err(ProtocolError::InvalidLength)
            } else {
                Ok(
                    (
                        SubcommandStateModel { mode: payload[0], ..self.state },
                        InputReportModel::answer(timer, ACK, id, Seq::<u8>::empty()),
                    ),
                )
            },
            Some(Subcommand::SetPlayerLights) => if payload.len() < 1 {
                Err(ProtocolError::InvalidLength)
            } else {
                Ok(
                    (
                        SubcommandStateModel { player_lights: payload[0], ..self.state },
                        InputReportModel::answer(timer, ACK, id, Seq::<u8>::empty()),
                    ),
                )
            },
            Some(Subcommand::EnableVibration) => if payload.len() < 1 {
                Err(ProtocolError::InvalidLength)
            } else {
                Ok(
                    (
                        SubcommandStateModel { rumble_enabled: payload[0] != 0, ..self.state },
                        InputReportModel::answer(timer, ACK, id, Seq::<u8>::empty()),
                    ),
                )
            },
            Some(Subcommand::SpiFlashRead) => if payload.len() < 5 {
                Err(ProtocolError::InvalidLength)
            } else if spec_flash_offset(payload) + payload[4] > self.state.flash.len() {
                Err(ProtocolError::OutOfRange)
            } else {
                Ok(
                    (
                        self.state,
                        InputReportModel::answer(
                            timer,
                            ACK_FLASH_READ,
                            id,
                            payload.subrange(0, 5) + self.state.flash.subrange(
                                spec_flash_offset(payload),
                                spec_flash_offset(payload) + payload[4],
                            ),
                        ),
                    ),
                )
            },
        }
    }

    /// The state after an output report, whatever becomes of its
    /// subcommand: the rumble payloads are taken over first.
    pub open spec fn rumbled(self, o: OutputModel) -> ProtocolModel {
        ProtocolModel { state: self.state.with_rumble(o.left_rumble, o.right_rumble), ..self }
    }

    /// What the host is sent for an output report: as `handle` says, but
    /// an unknown subcommand is refused in a reply of its own instead of
    /// failing, so that the host does not wait for an answer.
    pub open spec fn respond(self, o: OutputModel) -> Result<
        (SubcommandStateModel, Option<InputReportModel>),
        ProtocolError,
    > {
        match self.handle(o) {
            Err(ProtocolError::UnknownSubcommand) => Ok(
                (
                    self.rumbled(o).state,
                    Some(
                        InputReportModel::answer(
                            o.timer,
                            NACK,
                            o.subcommand.unwrap(),
                            Seq::<u8>::empty(),
                        ),
                    ),
                ),
            ),
            other => other,
        }
    }

    /// What an output report leads to: the rumble payloads are taken over,
    /// then a subcommand, if the report holds one, is answered.
    pub open spec fn handle(self, o: OutputModel) -> Result<
        (SubcommandStateModel, Option<InputReportModel>),
        ProtocolError,
    > {
        match o.subcommand {
            None => Ok((self.rumbled(o).state, None)),
            Some(id) => match self.rumbled(o).dispatch(
                o.timer,
                id,
                match o.data {
                    Some(data) => data,
                    None => Seq::<u8>::empty(),
                },
            ) {
                Ok((state, report)) => Ok((state, Some(report))),
                Err(e) => Err(e),
            },
        }
    }
}

/// Represents the protocol state of one emulated controller.
#[derive(Clone, Debug, PartialEq, Eq)]
pub struct Protocol {
    /// Represents the controller that is emulated.
    pub controller_type: ControllerType,
    /// Represents the address of the controller.
    pub address: [u8; 6],
    /// Represents what the host has set.
    pub state: SubcommandState,
}

impl View for Protocol {
    type V = ProtocolModel;

    open spec fn view(&self) -> ProtocolModel {
        ProtocolModel {
            controller_type: self.controller_type,
            address: self.address@,
            state: self.state@,
        }
    }
}

impl SubcommandState {
    /// Creates the state at the start of a session.
    pub fn new() -> (state: SubcommandState)
        ensures
            state@ == SubcommandStateModel::initial(),
    {
        let state = SubcommandState {
            mode: DEFAULT_INPUT_MODE,
            rumble_enabled: false,
            left_rumble: [0, 0, 0, 0],
            right_rumble: [0, 0, 0, 0],
            player_lights: 0,
            flash: vec![FLASH_ERASED; FLASH_SIZE],
        };
        proof {
            let m = SubcommandStateModel::initial();
            assert(state@.left_rumble =~= m.left_rumble);
            assert(state@.right_rumble =~= m.right_rumble);
            assert(state@.flash =~= m.flash);
        }
        state
    }
}

impl Protocol {
    /// Creates a `Protocol` for the given controller type, with the address
    /// still unset.
    pub fn new(controller_type: ControllerType) -> (protocol: Protocol)
        ensures
            protocol@ == (ProtocolModel {
                controller_type: controller_type,
                address: seq![0u8, 0u8, 0u8, 0u8, 0u8, 0u8],
                state: SubcommandStateModel::initial(),
            }),
    {
        let protocol = Protocol {
            controller_type,
            address: [0, 0, 0, 0, 0, 0],
            state: SubcommandState::new(),
        };
        assert(protocol@.address =~= seq![0u8, 0u8, 0u8, 0u8, 0u8, 0u8]);
        protocol
    }

    /// Returns the controller type.
    pub fn controller_type(&self) -> (controller_type: ControllerType)
        ensures
            controller_type == self@.controller_type,
    {
        self.controller_type
    }

    /// Sets the address that a device-info request is answered with.
    pub fn set_address(&mut self, address: [u8; 6])
        ensures
            final(self)@ == (ProtocolModel { address: address@, ..old(self)@ }),
    {
        self.address = address;
    }

    /// Puts the session state back to its start.
    pub fn reset(&mut self)
        ensures
            final(self)@ == (ProtocolModel {
                state: SubcommandStateModel::initial(),
                ..old(self)@
            }),
    {
        self.state = SubcommandState::new();
    }

    /// Answers the subcommand `id` and updates the state; on an error the
    /// state stays as it was.
    pub fn dispatch(&mut self, timer: u8, id: u8, payload: &[u8]) -> (r: Result<InputReport, Error>)
        ensures
            final(self)@.controller_type == old(self)@.controller_type,
            final(self)@.address == old(self)@.address,
            match old(self)@.dispatch(timer, id, payload@) {
                Ok((state, report)) => r is Ok && r.unwrap()@ == report && final(self)@.state
                    == state,
                Err(e) => r is Err && r.unwrap_err()@ == ErrorModel::protocol(e) && final(self)@.state == old(self)@.state,
            },
    {
        let subcommand: Subcommand = match Subcommand::from_id(id) {
            Ok(subcommand) => subcommand,
            Err(e) => {
                return Err(e);
            },
        };
        match subcommand {
            Subcommand::RequestDeviceInfo => {
                let mut data: Vec<u8> = Vec::new();
                data.push(0x03);
                data.push(0x48);
                data.push(self.controller_type.id());
                data.push(0x02);
                data.extend_from_slice(self.address.as_slice());
                data.push(0x01);
                data.push(0x01);
                assert(data@ =~= self@.device_info());
                Ok(InputReport::answer(timer, ACK_DEVICE_INFO, id, data))
            },
            Subcommand::SetInputReportMode => {
                if payload.len() < 1 {
                    return Err(Error::protocol(ProtocolError::InvalidLength));
                }
                self.state.mode = payload[0];
                Ok(InputReport::answer(timer, ACK, id, Vec::new()))
            },
            Subcommand::SetPlayerLights => {
                if payload.len() < 1 {
                    return Err(Error::protocol(ProtocolError::InvalidLength));
                }
                self.state.player_lights = payload[0];
                Ok(InputReport::answer(timer, ACK, id, Vec::new()))
            },
            Subcommand::EnableVibration => {
                if payload.len() < 1 {
                    return Err(Error::protocol(ProtocolError::InvalidLength));
                }
                self.state.rumble_enabled = payload[0] != 0;
                Ok(InputReport::answer(timer, ACK, id, Vec::new()))
            },
            Subcommand::SpiFlashRead => {
                if payload.len() < 5 {
                    return Err(Error::protocol(ProtocolError::InvalidLength));
                }
                let offset: u64 = payload[0] as u64 + payload[1] as u64 * 0x100 + payload[2] as u64
                    * 0x1_0000 + payload[3] as u64 * 0x100_0000;
                let length: u64 = payload[4] as u64;
                if offset + length > self.state.flash.len() as u64 {
                    return Err(Error::protocol(ProtocolError::OutOfRange));
                }
                let start: usize = offset as usize;
                let end: usize = (offset + length) as usize;
                let mut data: Vec<u8> = Vec::new();
                data.extend_from_slice(slice_subrange(payload, 0, 5));
                data.extend_from_slice(slice_subrange(self.state.flash.as_slice(), start, end));
                assert(data@ =~= payload@.subrange(0, 5) + self@.state.flash.subrange(
                    spec_flash_offset(payload@),
                    spec_flash_offset(payload@) + payload@[4],
                ));
                Ok(InputReport::answer(timer, ACK_FLASH_READ, id, data))
            },
        }
    }

    /// Takes over the rumble payloads of an output report, then answers its
    /// subcommand, if it holds one. On an error the rumble payloads stay
    /// taken over and nothing else changes.
    pub fn handle(&mut self, output: &Output) -> (r: Result<Option<InputReport>, Error>)
        ensures
            final(self)@.controller_type == old(self)@.controller_type,
            final(self)@.address == old(self)@.address,
            match old(self)@.handle(output@) {
                Ok((state, report)) => r is Ok && final(self)@.state == state && (match report {
                    Some(report) => r.unwrap() is Some && r.unwrap().unwrap()@ == report,
                    None => r.unwrap() is None,
                }),
                Err(e) => r is Err && r.unwrap_err()@ == ErrorModel::protocol(e) && final(self)@
                    == old(self)@.rumbled(output@),
            },
    {
        self.state.left_rumble = output.left_rumble;
        self.state.right_rumble = output.right_rumble;
        assert(self@ == old(self)@.rumbled(output@));
        match output.subcommand {
            None => Ok(None),
            Some(id) => {
                let r = match &output.data {
                    Some(data) => self.dispatch(output.timer, id, data.as_slice()),
                    None => {
                        let empty: Vec<u8> = Vec::new();
                        assert(empty@ =~= Seq::<u8>::empty());
                        self.dispatch(output.timer, id, empty.as_slice())
                    },
                };
                match r {
                    Ok(report) => Ok(Some(report)),
                    Err(e) => Err(e),
                }
            },
        }
    }

    /// Answers one frame from the host as `process` does, but refuses an
    /// unknown subcommand in a reply of its own instead of failing.
    pub fn respond(&mut self, frame: &[u8]) -> (r: Result<Option<Vec<u8>>, Error>)
        ensures
            final(self)@.controller_type == old(self)@.controller_type,
            final(self)@.address == old(self)@.address,
            match spec_decode_output(frame@) {
                Err(e) => r is Err && r.unwrap_err()@ == ErrorModel::protocol(e) && final(self)@
                    == old(self)@,
                Ok(o) => match old(self)@.respond(o) {
                    Ok((state, report)) => r is Ok && final(self)@.state == state && (match report {
                        Some(report) => r.unwrap() is Some && r.unwrap().unwrap()@
                            == spec_encode_input(report),
                        None => r.unwrap() is None,
                    }),
                    Err(e) => r is Err && r.unwrap_err()@ == ErrorModel::protocol(e) && final(self)@
                        == old(self)@.rumbled(o),
                },
            },
    {
        let output = match decode_output(frame) {
            Ok(output) => output,
            Err(e) => {
                return Err(e);
            },
        };
        match self.handle(&output) {
            Ok(Some(report)) => Ok(Some(encode_input(&report))),
            Ok(None) => Ok(None),
            Err(e) => match (e.kind, output.subcommand) {
                (ErrorKind::Protocol(ProtocolError::UnknownSubcommand), Some(id)) => Ok(
                    Some(encode_input(&InputReport::refusal(output.timer, id))),
                ),
                _ => Err(e),
            },
        }
    }

    /// Processes one frame from the host: decodes it, takes over its rumble
    /// payloads, answers its subcommand and encodes the answer. A frame that
    /// does not decode changes nothing.
    pub fn process(&mut self, frame: &[u8]) -> (r: Result<Option<Vec<u8>>, Error>)
        ensures
            final(self)@.controller_type == old(self)@.controller_type,
            final(self)@.address == old(self)@.address,
            match spec_decode_output(frame@) {
                Err(e) => r is Err && r.unwrap_err()@ == ErrorModel::protocol(e) && final(self)@
                    == old(self)@,
                Ok(o) => match old(self)@.handle(o) {
                    Ok((state, report)) => r is Ok && final(self)@.state == state && (match report {
                        Some(report) => r.unwrap() is Some && r.unwrap().unwrap()@
                            == spec_encode_input(report),
                        None => r.unwrap() is None,
                    }),
                    Err(e) => r is Err && r.unwrap_err()@ == ErrorModel::protocol(e) && final(self)@ == old(self)@.rumbled(o),
                },
            },
    {
        let output = match decode_output(frame) {
            Ok(output) => output,
            Err(e) => {
                return Err(e);
            },
        };
        match self.handle(&output) {
            Ok(Some(report)) => Ok(Some(encode_input(&report))),
            Ok(None) => Ok(None),
            Err(e) => Err(e),
        }
    }
}

/// A flash read that ends beyond the memory is refused as out of range,
/// whatever the state and the timer: no reply is built and no state changes.
pub proof fn lemma_flash_read_beyond_memory_is_rejected(
    p: ProtocolModel,
    timer: u8,
    payload: Seq<u8>,
)
    requires
        payload.len() >= 5,
        spec_flash_offset(payload) + payload[4] > p.state.flash.len(),
    ensures
        p.dispatch(timer, 0x10, payload) == Err::<
            (SubcommandStateModel, InputReportModel),
            ProtocolError,
        >(ProtocolError::OutOfRange),
{
}

/// A flash read within the memory answers with exactly the bytes asked for,
/// behind the five bytes of the request.
pub proof fn lemma_flash_read_serves_the_memory(p: ProtocolModel, timer: u8, payload: Seq<u8>)
    requires
        payload.len() >= 5,
        spec_flash_offset(payload) + payload[4] <= p.state.flash.len(),
    ensures
        p.dispatch(timer, 0x10, payload) is Ok,
        p.dispatch(timer, 0x10, payload).unwrap().0 == p.state,
        p.dispatch(timer, 0x10, payload).unwrap().1.reply.unwrap().data.len() == 5 + payload[4],
        forall|i: int|
            0 <= i < payload[4] ==> #[trigger] p.dispatch(
                timer,
                0x10,
                payload,
            ).unwrap().1.reply.unwrap().data[5 + i] == p.state.flash[spec_flash_offset(payload)
                + i],
{
}

/// An identifier outside the table is refused as an unknown subcommand,
/// whatever the payload.
pub proof fn lemma_unknown_subcommand_is_rejected(
    p: ProtocolModel,
    timer: u8,
    id: u8,
    payload: Seq<u8>,
)
    requires
        id != 0x02,
        id != 0x03,
        id != 0x10,
        id != 0x30,
        id != 0x48,
    ensures
        p.dispatch(timer, id, payload) == Err::<
            (SubcommandStateModel, InputReportModel),
            ProtocolError,
        >(ProtocolError::UnknownSubcommand),
{
}

} // verus!
