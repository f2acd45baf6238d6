//! The pairing of an emulated controller with its host, step by step.
//!
//! A `Controller` performs no Bluetooth operation itself. It answers every
//! outcome of an operation with the operation to perform next, so that the
//! order of the operations, the checks between them and the resources to
//! give back on a failure are decided in one place.

use crate::bluetooth::{
    lemma_stale_devices_are_the_consoles, spec_stale_devices, stale_devices, Address, Channel, Device, Resources,
    GAMEPAD_JOYSTICK_COD, MAX_SERVICE_RECORDS,
};
use crate::error::{Error, ErrorKind, ErrorModel, ProtocolError};
use crate::protocol::engine::{Protocol, ProtocolModel, SubcommandStateModel};
use crate::protocol::ControllerType;
use crate::text::{decimal, flag_word, spec_decimal, spec_flag_word};
use vstd::prelude::*;

verus! {

/// Enumeration for the phases of a pairing.
#[derive(Clone, Copy, Debug, PartialEq, Eq, Structural)]
pub enum Phase {
    /// Nothing has been asked for yet.
    Idle,
    /// The adapter is cleaned up and set up, and the listeners are bound.
    Configuring,
    /// The service record is registered and the adapter is made visible.
    Advertising,
    /// The host is awaited on both channels.
    AwaitingConnections,
    /// Both channels are connected to one host.
    Paired,
    /// Everything has been given back.
    Closed,
    /// The attempt was aborted.
    Failed,
}

/// Enumeration for the steps of a pairing: each names the operation whose
/// outcome is awaited.
#[derive(Clone, Copy, Debug, PartialEq, Eq, Structural)]
pub enum Step {
    Idle,
    ReadingUuids,
    WarningCluttered,
    ListingDevices,
    RemovingDevices,
    ReadingAddress,
    BindingControl,
    BindingInterrupt,
    PoweringOn,
    EnablingPairing,
    SettingAlias,
    RegisteringProfile,
    EnablingDiscovery,
    SettingClass,
    ReadingClass,
    AcceptingControl,
    AcceptingInterrupt,
    DisablingDiscovery,
    DisablingPairing,
    Paired,
    Closed,
    Failed,
}

impl Step {
    /// The phase that the step belongs to.
    pub open spec fn spec_phase(self) -> Phase {
        match self {
            Step::Idle => Phase::Idle,
            Step::ReadingUuids
            | Step::WarningCluttered
            | Step::ListingDevices
            | Step::RemovingDevices
            | Step::ReadingAddress
            | Step::BindingControl
            | Step::BindingInterrupt
            | Step::PoweringOn
            | Step::EnablingPairing
            | Step::SettingAlias
            | Step::RegisteringProfile => Phase::Configuring,
            Step::EnablingDiscovery | Step::SettingClass | Step::ReadingClass => Phase::Advertising,
            Step::AcceptingControl
            | Step::AcceptingInterrupt
            | Step::DisablingDiscovery
            | Step::DisablingPairing => Phase::AwaitingConnections,
            Step::Paired => Phase::Paired,
            Step::Closed => Phase::Closed,
            Step::Failed => Phase::Failed,
        }
    }

    /// Returns the phase that the step belongs to.
    pub fn phase(self) -> (phase: Phase)
        ensures
            phase == self.spec_phase(),
    {
        match self {
            Step::Idle => Phase::Idle,
            Step::ReadingUuids
            | Step::WarningCluttered
            | Step::ListingDevices
            | Step::RemovingDevices
            | Step::ReadingAddress
            | Step::BindingControl
            | Step::BindingInterrupt
            | Step::PoweringOn
            | Step::EnablingPairing
            | Step::SettingAlias
            | Step::RegisteringProfile => Phase::Configuring,
            Step::EnablingDiscovery | Step::SettingClass | Step::ReadingClass => Phase::Advertising,
            Step::AcceptingControl
            | Step::AcceptingInterrupt
            | Step::DisablingDiscovery
            | Step::DisablingPairing => Phase::AwaitingConnections,
            Step::Paired => Phase::Paired,
            Step::Closed => Phase::Closed,
            Step::Failed => Phase::Failed,
        }
    }

    /// Whether no operation is under way: a pairing can start from here.
    pub open spec fn spec_at_rest(self) -> bool {
        self == Step::Idle || self == Step::Closed || self == Step::Failed
    }

    /// The place of the step in the order in which a pairing runs.
    pub open spec fn spec_rank(self) -> u8 {
        match self {
            Step::Idle => 0,
            Step::ReadingUuids => 1,
            Step::WarningCluttered => 2,
            Step::ListingDevices => 3,
            Step::RemovingDevices => 4,
            Step::ReadingAddress => 5,
            Step::BindingControl => 6,
            Step::BindingInterrupt => 7,
            Step::PoweringOn => 8,
            Step::EnablingPairing => 9,
            Step::SettingAlias => 10,
            Step::RegisteringProfile => 11,
            Step::EnablingDiscovery => 12,
            Step::SettingClass => 13,
            Step::ReadingClass => 14,
            Step::AcceptingControl => 15,
            Step::AcceptingInterrupt => 16,
            Step::DisablingDiscovery => 17,
            Step::DisablingPairing => 18,
            Step::Paired => 19,
            Step::Closed => 20,
            Step::Failed => 21,
        }
    }

    /// Returns the place of the step in the order in which a pairing runs.
    pub fn rank(self) -> (rank: u8)
        ensures
            rank == self.spec_rank(),
    {
        match self {
            Step::Idle => 0,
            Step::ReadingUuids => 1,
            Step::WarningCluttered => 2,
            Step::ListingDevices => 3,
            Step::RemovingDevices => 4,
            Step::ReadingAddress => 5,
            Step::BindingControl => 6,
            Step::BindingInterrupt => 7,
            Step::PoweringOn => 8,
            Step::EnablingPairing => 9,
            Step::SettingAlias => 10,
            Step::RegisteringProfile => 11,
            Step::EnablingDiscovery => 12,
            Step::SettingClass => 13,
            Step::ReadingClass => 14,
            Step::AcceptingControl => 15,
            Step::AcceptingInterrupt => 16,
            Step::DisablingDiscovery => 17,
            Step::DisablingPairing => 18,
            Step::Paired => 19,
            Step::Closed => 20,
            Step::Failed => 21,
        }
    }

    /// What is held while the outcome of the step is awaited: each listener
    /// from its binding until the attempt ends, the service record from its
    /// registration and each connection from its acceptance until the close.
    pub open spec fn spec_holds(self) -> Resources {
        Resources {
            control_listener: Step::BindingInterrupt.spec_rank() <= self.spec_rank()
                <= Step::DisablingPairing.spec_rank(),
            interrupt_listener: Step::PoweringOn.spec_rank() <= self.spec_rank()
                <= Step::DisablingPairing.spec_rank(),
            profile: Step::EnablingDiscovery.spec_rank() <= self.spec_rank()
                <= Step::Paired.spec_rank(),
            control_socket: Step::AcceptingInterrupt.spec_rank() <= self.spec_rank()
                <= Step::Paired.spec_rank(),
            interrupt_socket: Step::DisablingDiscovery.spec_rank() <= self.spec_rank()
                <= Step::Paired.spec_rank(),
        }
    }

    /// Returns what is held while the outcome of the step is awaited.
    pub fn holds(self) -> (held: Resources)
        ensures
            held == self.spec_holds(),
    {
        let rank: u8 = self.rank();
        Resources {
            control_listener: Step::BindingInterrupt.rank() <= rank && rank
                <= Step::DisablingPairing.rank(),
            interrupt_listener: Step::PoweringOn.rank() <= rank && rank
                <= Step::DisablingPairing.rank(),
            profile: Step::EnablingDiscovery.rank() <= rank && rank <= Step::Paired.rank(),
            control_socket: Step::AcceptingInterrupt.rank() <= rank && rank <= Step::Paired.rank(),
            interrupt_socket: Step::DisablingDiscovery.rank() <= rank && rank
                <= Step::Paired.rank(),
        }
    }
}

/// Enumeration for the outcomes of the operations that a pairing asks for.
#[derive(Clone, Debug, PartialEq, Eq)]
pub enum Event {
    /// The operation succeeded and has nothing to tell.
    Done,
    /// The adapter advertises this many services.
    Uuids(usize),
    /// The adapter knows these devices.
    Devices(Vec<Device>),
    /// The adapter has this address.
    LocalAddress(Address),
    /// The adapter has this class of device.
    Class(u32),
    /// A host with this address has connected.
    Accepted(Address),
    /// The operation failed.
    Failed(Error),
}

/// What an `Event` holds, as plain values.
pub enum EventModel {
    Done,
    Uuids(usize),
    Devices(Seq<Device>),
    LocalAddress(Address),
    Class(u32),
    Accepted(Address),
    Failed(ErrorModel),
}

impl View for Event {
    type V = EventModel;

    open spec fn view(&self) -> EventModel {
        match self {
            Event::Done => EventModel::Done,
            Event::Uuids(count) => EventModel::Uuids(*count),
            Event::Devices(devices) => EventModel::Devices(devices@),
            Event::LocalAddress(address) => EventModel::LocalAddress(*address),
            Event::Class(class) => EventModel::Class(*class),
            Event::Accepted(address) => EventModel::Accepted(*address),
            Event::Failed(error) => EventModel::Failed(error@),
        }
    }
}

/// Enumeration for the operations that a pairing asks for.
#[derive(Clone, Debug, PartialEq, Eq)]
pub enum Action {
    /// Nothing is to be done.
    Nothing,
    /// Read the services that the adapter advertises.
    ReadUuids,
    /// Warn that too many service records are active.
    WarnCluttered,
    /// List the devices that the adapter knows, with their names.
    ListDevices,
    /// Unpair and remove these devices, in this order.
    RemoveDevices(Vec<Address>),
    /// Read the address of the adapter.
    ReadAddress,
    /// Bind the listener of the channel at this address.
    Bind(Channel, Address),
    /// Power the adapter on or off.
    SetPowered(bool),
    /// Make the adapter pairable or not.
    SetPairable(bool),
    /// Give the adapter this alias.
    SetAlias(String),
    /// Register the service record.
    RegisterProfile,
    /// Make the adapter discoverable or not.
    SetDiscoverable(bool),
    /// Set the class of device of the adapter.
    SetClass(u32),
    /// Read the class of device of the adapter.
    ReadClass,
    /// Await the host on the channel.
    Accept(Channel),
    /// Release both listeners and report the host with this address as paired.
    Complete(Address),
    /// Give back these resources, then report this error.
    Abort(Resources, Error),
}

/// What an `Action` holds, as plain values.
pub enum ActionModel {
    Nothing,
    ReadUuids,
    WarnCluttered,
    ListDevices,
    RemoveDevices(Seq<Address>),
    ReadAddress,
    Bind(Channel, Address),
    SetPowered(bool),
    SetPairable(bool),
    SetAlias(Seq<char>),
    RegisterProfile,
    SetDiscoverable(bool),
    SetClass(u32),
    ReadClass,
    Accept(Channel),
    Complete(Address),
    Abort(Resources, ErrorModel),
}

impl View for Action {
    type V = ActionModel;

    open spec fn view(&self) -> ActionModel {
        match self {
            Action::Nothing => ActionModel::Nothing,
            Action::ReadUuids => ActionModel::ReadUuids,
            Action::WarnCluttered => ActionModel::WarnCluttered,
            Action::ListDevices => ActionModel::ListDevices,
            Action::RemoveDevices(addresses) => ActionModel::RemoveDevices(addresses@),
            Action::ReadAddress => ActionModel::ReadAddress,
            Action::Bind(channel, address) => ActionModel::Bind(*channel, *address),
            Action::SetPowered(on) => ActionModel::SetPowered(*on),
            Action::SetPairable(on) => ActionModel::SetPairable(*on),
            Action::SetAlias(alias) => ActionModel::SetAlias(alias@),
            Action::RegisterProfile => ActionModel::RegisterProfile,
            Action::SetDiscoverable(on) => ActionModel::SetDiscoverable(*on),
            Action::SetClass(class) => ActionModel::SetClass(*class),
            Action::ReadClass => ActionModel::ReadClass,
            Action::Accept(channel) => ActionModel::Accept(*channel),
            Action::Complete(address) => ActionModel::Complete(*address),
            Action::Abort(held, error) => ActionModel::Abort(*held, error@),
        }
    }
}

/// What a `Controller` holds, as plain values.
pub struct ControllerModel {
    pub adapter: Seq<char>,
    pub protocol: ProtocolModel,
    pub step: Step,
    pub local: Address,
    pub remote: Address,
}

impl ControllerModel {
    /// The controller before any pairing: idle, with both addresses zero.
    pub open spec fn initial(adapter: Seq<char>, controller_type: ControllerType) -> ControllerModel {
        ControllerModel {
            adapter: adapter,
            protocol: ProtocolModel {
                controller_type: controller_type,
                address: seq![0u8, 0u8, 0u8, 0u8, 0u8, 0u8],
                state: SubcommandStateModel::initial(),
            },
            step: Step::Idle,
            local: Address { octets: [0u8, 0u8, 0u8, 0u8, 0u8, 0u8] },
            remote: Address { octets: [0u8, 0u8, 0u8, 0u8, 0u8, 0u8] },
        }
    }

    /// The message of an operation on the adapter that failed.
    pub open spec fn adapter_message(self, before: Seq<char>, after: Seq<char>) -> ErrorModel {
        ErrorModel { kind: ErrorKind::Bluetooth, message: before + self.adapter + after }
    }

    /// The error to report when an operation fails. A failure of the
    /// adapter is told by a message that names the adapter and what was
    /// asked of it; a failure of a socket, and of anything else, by its
    /// cause.
    pub open spec fn failure(self, action: ActionModel, cause: Seq<char>) -> ErrorModel {
        match action {
            ActionModel::ReadUuids => self.adapter_message(
                "cannot get uuid of adapter "@,
                Seq::<char>::empty(),
            ),
            ActionModel::ListDevices => self.adapter_message(
                "cannot get devices of adapter "@,
                Seq::<char>::empty(),
            ),
            ActionModel::RemoveDevices(_) => self.adapter_message(
                "cannot remove device from adapter "@,
                Seq::<char>::empty(),
            ),
            ActionModel::ReadAddress => self.adapter_message(
                "cannot get address of adapter "@,
                Seq::<char>::empty(),
            ),
            ActionModel::SetPowered(on) => self.adapter_message(
                "cannot set adapter "@,
                " powered to "@ + spec_flag_word(on),
            ),
            ActionModel::SetPairable(on) => self.adapter_message(
                "cannot set adapter "@,
                " pairable to "@ + spec_flag_word(on),
            ),
            ActionModel::SetDiscoverable(on) => self.adapter_message(
                "cannot set adapter "@,
                " discoverable to "@ + spec_flag_word(on),
            ),
            ActionModel::SetAlias(alias) => self.adapter_message(
                "cannot set adapter "@,
                " alias to "@ + alias,
            ),
            ActionModel::SetClass(class) => self.adapter_message(
                "cannot set adapter "@,
                " class to "@ + spec_decimal(class as nat),
            ),
            ActionModel::ReadClass => self.adapter_message(
                "cannot get class of adapter "@,
                Seq::<char>::empty(),
            ),
            ActionModel::RegisterProfile => ErrorModel {
                kind: ErrorKind::Bluetooth,
                message: "cannot register profile"@,
            },
            ActionModel::Bind(_, _) | ActionModel::Accept(_) => ErrorModel {
                kind: ErrorKind::Io,
                message: cause,
            },
            _ => ErrorModel { kind: ErrorKind::Other, message: cause },
        }
    }

    /// The error of an outcome that the step did not await.
    pub open spec fn unexpected() -> ErrorModel {
        ErrorModel { kind: ErrorKind::Other, message: "unexpected event"@ }
    }

    /// The error of an adapter that did not take over the class of device.
    pub open spec fn class_refused(self) -> ErrorModel {
        ErrorModel {
            kind: ErrorKind::Other,
            message: "cannot set class for adapter "@ + self.adapter,
        }
    }

    /// The controller at another step, and the operation to perform.
    pub open spec fn go(self, step: Step, action: ActionModel) -> (ControllerModel, ActionModel) {
        (ControllerModel { step: step, ..self }, action)
    }

    /// The aborted attempt: all that the step held, and a connection that
    /// has just been accepted, is given back before the error is reported.
    pub open spec fn fail(self, accepted: bool, error: ErrorModel) -> (
        ControllerModel,
        ActionModel,
    ) {
        (
            ControllerModel { step: Step::Failed, ..self },
            ActionModel::Abort(
                Resources {
                    interrupt_socket: accepted || self.step.spec_holds().interrupt_socket,
                    ..self.step.spec_holds()
                },
                error,
            ),
        )
    }

    /// The controller with the session state of its protocol at the start.
    pub open spec fn reset(self) -> ControllerModel {
        ControllerModel {
            protocol: ProtocolModel { state: SubcommandStateModel::initial(), ..self.protocol },
            ..self
        }
    }

    /// The start of a pairing: from rest, the advertised services are read
    /// first; while a pairing is under way or done, nothing happens.
    pub open spec fn pair(self) -> (ControllerModel, ActionModel) {
        if self.step.spec_at_rest() {
            self.go(Step::ReadingUuids, ActionModel::ReadUuids)
        } else {
            (self, ActionModel::Nothing)
        }
    }

    /// The close: whatever is held is given back, and nothing is held after.
    pub open spec fn close(self) -> (ControllerModel, Resources) {
        (ControllerModel { step: Step::Closed, ..self }, self.step.spec_holds())
    }

    /// The answer to the outcome of an operation. At rest and once paired
    /// nothing is awaited and nothing happens. A failed operation, and an
    /// outcome that the step did not await, abort the attempt. Otherwise the
    /// pairing goes on: stale consoles are removed, the listeners are bound,
    /// the adapter is set up and the service record registered, the adapter
    /// is made visible and its class confirmed, the host is accepted on the
    /// control channel and then on the interrupt channel, from one address,
    /// and the adapter is hidden again.
    pub open spec fn advance(self, event: EventModel) -> (ControllerModel, ActionModel) {
        if self.step.spec_at_rest() || self.step == Step::Paired {
            (self, ActionModel::Nothing)
        } else {
            match (self.step, event) {
                (_, EventModel::Failed(error)) => self.fail(false, error),
                (Step::ReadingUuids, EventModel::Uuids(count)) => if count > MAX_SERVICE_RECORDS {
                    self.go(Step::WarningCluttered, ActionModel::WarnCluttered)
                } else {
                    self.go(Step::ListingDevices, ActionModel::ListDevices)
                },
                (Step::WarningCluttered, EventModel::Done) => self.go(
                    Step::ListingDevices,
                    ActionModel::ListDevices,
                ),
                (Step::ListingDevices, EventModel::Devices(devices)) => if spec_stale_devices(
                    devices,
                ).len() > 0 {
                    self.go(
                        Step::RemovingDevices,
                        ActionModel::RemoveDevices(spec_stale_devices(devices)),
                    )
                } else {
                    self.reset().go(Step::ReadingAddress, ActionModel::ReadAddress)
                },
                (Step::RemovingDevices, EventModel::Done) => self.reset().go(
                    Step::ReadingAddress,
                    ActionModel::ReadAddress,
                ),
                (Step::ReadingAddress, EventModel::LocalAddress(address)) => (ControllerModel {
                    local: address,
                    protocol: ProtocolModel { address: address.octets@, ..self.protocol },
                    ..self
                }).go(Step::BindingControl, ActionModel::Bind(Channel::Control, address)),
                (Step::BindingControl, EventModel::Done) => self.go(
                    Step::BindingInterrupt,
                    ActionModel::Bind(Channel::Interrupt, self.local),
                ),
                (Step::BindingInterrupt, EventModel::Done) => self.go(
                    Step::PoweringOn,
                    ActionModel::SetPowered(true),
                ),
                (Step::PoweringOn, EventModel::Done) => self.go(
                    Step::EnablingPairing,
                    ActionModel::SetPairable(true),
                ),
                (Step::EnablingPairing, EventModel::Done) => self.go(
                    Step::SettingAlias,
                    ActionModel::SetAlias(self.protocol.controller_type.spec_name()),
                ),
                (Step::SettingAlias, EventModel::Done) => self.go(
                    Step::RegisteringProfile,
                    ActionModel::RegisterProfile,
                ),
                (Step::RegisteringProfile, EventModel::Done) => self.go(
                    Step::EnablingDiscovery,
                    ActionModel::SetDiscoverable(true),
                ),
                (Step::EnablingDiscovery, EventModel::Done) => self.go(
                    Step::SettingClass,
                    ActionModel::SetClass(GAMEPAD_JOYSTICK_COD),
                ),
                (Step::SettingClass, EventModel::Done) => self.go(
                    Step::ReadingClass,
                    ActionModel::ReadClass,
                ),
                (Step::ReadingClass, EventModel::Class(class)) => if class
                    == GAMEPAD_JOYSTICK_COD {
                    self.go(Step::AcceptingControl, ActionModel::Accept(Channel::Control))
                } else {
                    self.fail(false, self.class_refused())
                },
                (Step::AcceptingControl, EventModel::Accepted(address)) => (ControllerModel {
                    remote: address,
                    ..self
                }).go(Step::AcceptingInterrupt, ActionModel::Accept(Channel::Interrupt)),
                (Step::AcceptingInterrupt, EventModel::Accepted(address)) => if address
                    == self.remote {
                    self.go(Step::DisablingDiscovery, ActionModel::SetDiscoverable(false))
                } else {
                    self.fail(true, ErrorModel::protocol(ProtocolError::AddressMismatch))
                },
                (Step::DisablingDiscovery, EventModel::Done) => self.go(
                    Step::DisablingPairing,
                    ActionModel::SetPairable(false),
                ),
                (Step::DisablingPairing, EventModel::Done) => self.go(
                    Step::Paired,
                    ActionModel::Complete(self.remote),
                ),
                _ => self.fail(false, ControllerModel::unexpected()),
            }
        }
    }
}

/// Represents an emulated Nintendo Switch controller.
#[derive(Clone, Debug, PartialEq, Eq)]
pub struct Controller {
    /// Represents the name of the adapter.
    pub adapter: String,
    /// Represents the protocol state.
    pub protocol: Protocol,
    /// Represents the step of the pairing.
    pub step: Step,
    /// Represents the address of the adapter.
    pub local: Address,
    /// Represents the address of the host on the control channel.
    pub remote: Address,
}

impl View for Controller {
    type V = ControllerModel;

    open spec fn view(&self) -> ControllerModel {
        ControllerModel {
            adapter: self.adapter@,
            protocol: self.protocol@,
            step: self.step,
            local: self.local,
            remote: self.remote,
        }
    }
}

impl Controller {
    /// Creates a `Controller` with the given adapter and controller type.
    pub fn new(adapter: &str, controller_type: ControllerType) -> (controller: Controller)
        ensures
            controller@ == ControllerModel::initial(adapter@, controller_type),
    {
        let controller = Controller {
            adapter: String::from_str(adapter),
            protocol: Protocol::new(controller_type),
            step: Step::Idle,
            local: Address::new([0, 0, 0, 0, 0, 0]),
            remote: Address::new([0, 0, 0, 0, 0, 0]),
        };
        proof {
            let m = ControllerModel::initial(adapter@, controller_type);
            assert(controller@.local.octets =~= m.local.octets);
            assert(controller@.remote.octets =~= m.remote.octets);
        }
        controller
    }

    /// Builds the message of an operation on the adapter that failed.
    fn adapter_error(&self, before: &str, after: &str) -> (error: Error)
        ensures
            error@ == self@.adapter_message(before@, after@),
    {
        let mut message = String::from_str(before);
        message.append(self.adapter.as_str());
        message.append(after);
        Error::new(ErrorKind::Bluetooth, message)
    }

    /// Builds the message of a setting of the adapter that failed.
    fn setting_error(&self, what: &str, value: &str) -> (error: Error)
        ensures
            error@ == self@.adapter_message("cannot set adapter "@, what@ + value@),
    {
        let mut after = String::from_str(what);
        after.append(value);
        self.adapter_error("cannot set adapter ", after.as_str())
    }

    /// Returns the error to report when `action` has failed for `cause`.
    pub fn failure(&self, action: &Action, cause: &str) -> (error: Error)
        ensures
            error@ == self@.failure(action@, cause@),
    {
        let ghost none = Seq::<char>::empty();
        proof {
            reveal_strlit("");
            assert(""@ =~= none);
        }
        match action {
            Action::ReadUuids => self.adapter_error("cannot get uuid of adapter ", ""),
            Action::ListDevices => self.adapter_error("cannot get devices of adapter ", ""),
            Action::RemoveDevices(_) => self.adapter_error(
                "cannot remove device from adapter ",
                "",
            ),
            Action::ReadAddress => self.adapter_error("cannot get address of adapter ", ""),
            Action::SetPowered(on) => self.setting_error(" powered to ", flag_word(*on)),
            Action::SetPairable(on) => self.setting_error(" pairable to ", flag_word(*on)),
            Action::SetDiscoverable(on) => self.setting_error(
                " discoverable to ",
                flag_word(*on),
            ),
            Action::SetAlias(alias) => self.setting_error(" alias to ", alias.as_str()),
            Action::SetClass(class) => self.setting_error(
                " class to ",
                decimal(*class).as_str(),
            ),
            Action::ReadClass => self.adapter_error("cannot get class of adapter ", ""),
            Action::RegisterProfile => Error::new(
                ErrorKind::Bluetooth,
                String::from_str("cannot register profile"),
            ),
            Action::Bind(_, _) | Action::Accept(_) => Error::new(
                ErrorKind::Io,
                String::from_str(cause),
            ),
            _ => Error::new(ErrorKind::Other, String::from_str(cause)),
        }
    }

    /// Returns the phase of the pairing.
    pub fn phase(&self) -> (phase: Phase)
        ensures
            phase == self@.step.spec_phase(),
    {
        self.step.phase()
    }

    /// Returns what the controller holds and has to give back.
    pub fn held(&self) -> (held: Resources)
        ensures
            held == self@.step.spec_holds(),
    {
        self.step.holds()
    }

    /// Aborts the attempt and says what to give back before `error` is
    /// reported.
    fn fail(&mut self, accepted: bool, error: Error) -> (action: Action)
        ensures
            (final(self)@, action@) == old(self)@.fail(accepted, error@),
    {
        let mut held = self.step.holds();
        held.interrupt_socket = accepted || held.interrupt_socket;
        self.step = Step::Failed;
        Action::Abort(held, error)
    }

    /// Pairs a new device: starts the pairing and returns its first
    /// operation. While a pairing is under way or done, nothing happens.
    pub fn pair(&mut self) -> (action: Action)
        ensures
            (final(self)@, action@) == old(self)@.pair(),
    {
        match self.step {
            Step::Idle | Step::Closed | Step::Failed => {
                self.step = Step::ReadingUuids;
                Action::ReadUuids
            },
            _ => Action::Nothing,
        }
    }

    /// Takes the outcome of the operation asked for last and returns the
    /// operation to perform next.
    pub fn advance(&mut self, event: Event) -> (action: Action)
        ensures
            (final(self)@, action@) == old(self)@.advance(event@),
    {
        match self.step {
            Step::Idle | Step::Closed | Step::Failed | Step::Paired => {
                return Action::Nothing;
            },
            _ => {},
        }
        match (self.step, event) {
            (_, Event::Failed(error)) => self.fail(false, error),
            (Step::ReadingUuids, Event::Uuids(count)) => {
                if count > MAX_SERVICE_RECORDS {
                    self.step = Step::WarningCluttered;
                    Action::WarnCluttered
                } else {
                    self.step = Step::ListingDevices;
                    Action::ListDevices
                }
            },
            (Step::WarningCluttered, Event::Done) => {
                self.step = Step::ListingDevices;
                Action::ListDevices
            },
            (Step::ListingDevices, Event::Devices(devices)) => {
                let stale = stale_devices(&devices);
                if stale.len() > 0 {
                    self.step = Step::RemovingDevices;
                    Action::RemoveDevices(stale)
                } else {
                    self.protocol.reset();
                    self.step = Step::ReadingAddress;
                    Action::ReadAddress
                }
            },
            (Step::RemovingDevices, Event::Done) => {
                self.protocol.reset();
                self.step = Step::ReadingAddress;
                Action::ReadAddress
            },
            (Step::ReadingAddress, Event::LocalAddress(address)) => {
                self.local = address;
                self.protocol.set_address(address.octets);
                self.step = Step::BindingControl;
                Action::Bind(Channel::Control, address)
            },
            (Step::BindingControl, Event::Done) => {
                self.step = Step::BindingInterrupt;
                Action::Bind(Channel::Interrupt, self.local)
            },
            (Step::BindingInterrupt, Event::Done) => {
                self.step = Step::PoweringOn;
                Action::SetPowered(true)
            },
            (Step::PoweringOn, Event::Done) => {
                self.step = Step::EnablingPairing;
                Action::SetPairable(true)
            },
            (Step::EnablingPairing, Event::Done) => {
                self.step = Step::SettingAlias;
                Action::SetAlias(String::from_str(self.protocol.controller_type().name()))
            },
            (Step::SettingAlias, Event::Done) => {
                self.step = Step::RegisteringProfile;
                Action::RegisterProfile
            },
            (Step::RegisteringProfile, Event::Done) => {
                self.step = Step::EnablingDiscovery;
                Action::SetDiscoverable(true)
            },
            (Step::EnablingDiscovery, Event::Done) => {
                self.step = Step::SettingClass;
                Action::SetClass(GAMEPAD_JOYSTICK_COD)
            },
            (Step::SettingClass, Event::Done) => {
                self.step = Step::ReadingClass;
                Action::ReadClass
            },
            (Step::ReadingClass, Event::Class(class)) => {
                if class == GAMEPAD_JOYSTICK_COD {
                    self.step = Step::AcceptingControl;
                    Action::Accept(Channel::Control)
                } else {
                    let mut message = String::from_str("cannot set class for adapter ");
                    message.append(self.adapter.as_str());
                    self.fail(false, Error::new(ErrorKind::Other, message))
                }
            },
            (Step::AcceptingControl, Event::Accepted(address)) => {
                self.remote = address;
                self.step = Step::AcceptingInterrupt;
                Action::Accept(Channel::Interrupt)
            },
            (Step::AcceptingInterrupt, Event::Accepted(address)) => {
                if address.same(&self.remote) {
                    self.step = Step::DisablingDiscovery;
                    Action::SetDiscoverable(false)
                } else {
                    self.fail(true, Error::protocol(ProtocolError::AddressMismatch))
                }
            },
            (Step::DisablingDiscovery, Event::Done) => {
                self.step = Step::DisablingPairing;
                Action::SetPairable(false)
            },
            (Step::DisablingPairing, Event::Done) => {
                self.step = Step::Paired;
                Action::Complete(self.remote)
            },
            _ => self.fail(
                false,
                Error::new(ErrorKind::Other, String::from_str("unexpected event")),
            ),
        }
    }

    /// Closes the controller and returns what is to be given back: the
    /// connections to shut down, the listeners to drop and the service
    /// record to unregister. After a close nothing is held.
    pub fn close(&mut self) -> (released: Resources)
        ensures
            (final(self)@, released) == old(self)@.close(),
    {
        let released = self.step.holds();
        self.step = Step::Closed;
        released
    }
}

/// When the host connects on the interrupt channel from another address
/// than on the control channel, the pairing fails on a protocol error and
/// both connections are given back: neither is left open.
pub proof fn lemma_address_mismatch_closes_both(c: ControllerModel, address: Address)
    requires
        c.step == Step::AcceptingInterrupt,
        address != c.remote,
    ensures
        c.advance(EventModel::Accepted(address)).0.step == Step::Failed,
        c.advance(EventModel::Accepted(address)).0.step.spec_holds() == Resources::spec_none(),
        c.advance(EventModel::Accepted(address)).1 == ActionModel::Abort(
            Resources {
                control_listener: true,
                interrupt_listener: true,
                profile: true,
                control_socket: true,
                interrupt_socket: true,
            },
            ErrorModel::protocol(ProtocolError::AddressMismatch),
        ),
{
}

/// When the host is accepted on the control channel from one address and
/// on the interrupt channel from another, the pairing fails on a protocol
/// error, and the abortion gives back both connections with all the rest.
pub proof fn lemma_two_hosts_fail(c: ControllerModel, control: Address, interrupt: Address)
    requires
        c.step == Step::AcceptingControl,
        control != interrupt,
    ensures
        c.advance(EventModel::Accepted(control)).1 == ActionModel::Accept(Channel::Interrupt),
        c.advance(EventModel::Accepted(control)).0.advance(EventModel::Accepted(interrupt)).1
            == ActionModel::Abort(
            Resources {
                control_listener: true,
                interrupt_listener: true,
                profile: true,
                control_socket: true,
                interrupt_socket: true,
            },
            ErrorModel::protocol(ProtocolError::AddressMismatch),
        ),
        c.advance(EventModel::Accepted(control)).0.advance(
            EventModel::Accepted(interrupt),
        ).0.step == Step::Failed,
{
    let c1 = c.advance(EventModel::Accepted(control)).0;
    assert(c1.step == Step::AcceptingInterrupt);
    assert(c1.remote == control);
    lemma_address_mismatch_closes_both(c1, interrupt);
}

/// A device named like the console is removed before the pairing goes on,
/// however many other devices the adapter knows: the answer to the list is
/// the removal of a set that holds it, and the pairing stays where it is
/// until the removal is done.
pub proof fn lemma_stale_console_is_removed(c: ControllerModel, devices: Seq<Device>, i: int)
    requires
        c.step == Step::ListingDevices,
        0 <= i < devices.len(),
        devices[i].spec_is_stale(),
    ensures
        c.advance(EventModel::Devices(devices)).0.step == Step::RemovingDevices,
        c.advance(EventModel::Devices(devices)).1 == ActionModel::RemoveDevices(
            spec_stale_devices(devices),
        ),
        spec_stale_devices(devices).contains(devices[i].address),
{
    lemma_stale_devices_are_the_consoles(devices);
}

/// Closing twice is closing once: the second close gives nothing back and
/// leaves the controller as the first close left it.
pub proof fn lemma_close_is_idempotent(c: ControllerModel)
    ensures
        c.close().0.close() == (c.close().0, Resources::spec_none()),
        c.close().0.step.spec_holds() == Resources::spec_none(),
{
}

/// A failed operation aborts the attempt from every step at which an
/// outcome is awaited: all that is held is given back, nothing is held
/// after, and the error of the operation is the one reported.
pub proof fn lemma_failure_gives_everything_back(c: ControllerModel, error: ErrorModel)
    requires
        !c.step.spec_at_rest(),
        c.step != Step::Paired,
    ensures
        c.advance(EventModel::Failed(error)).0.step == Step::Failed,
        c.advance(EventModel::Failed(error)).0.step.spec_holds() == Resources::spec_none(),
        c.advance(EventModel::Failed(error)).1 == ActionModel::Abort(c.step.spec_holds(), error),
{
}

/// The adapter is made discoverable only once both listeners are bound and
/// the service record is registered.
pub proof fn lemma_visible_only_when_listening(c: ControllerModel, event: EventModel)
    requires
        c.advance(event).1 == ActionModel::SetDiscoverable(true),
    ensures
        c.advance(event).0.step.spec_holds() == (Resources {
            control_listener: true,
            interrupt_listener: true,
            profile: true,
            control_socket: false,
            interrupt_socket: false,
        }),
{
}

/// A pairing is reported as done only for the address from which both
/// channels were connected, after the adapter was hidden again; the
/// connections and the service record are then held and the listeners
/// are not.
pub proof fn lemma_paired_holds_the_connections(c: ControllerModel, event: EventModel)
    requires
        c.advance(event).1 is Complete,
    ensures
        c.step == Step::DisablingPairing,
        event == EventModel::Done,
        c.advance(event).1 == ActionModel::Complete(c.remote),
        c.advance(event).0.step == Step::Paired,
        c.advance(event).0.step.spec_holds() == (Resources {
            control_listener: false,
            interrupt_listener: false,
            profile: true,
            control_socket: true,
            interrupt_socket: true,
        }),
{
}

/// A pairing is reported as done only right after the adapter was made
/// undiscoverable and then unpairable, in that order, whatever the
/// controller and the outcomes were.
pub proof fn lemma_hidden_before_paired(
    c: ControllerModel,
    first: EventModel,
    second: EventModel,
    third: EventModel,
)
    requires
        c.advance(first).0.advance(second).0.advance(third).1 is Complete,
    ensures
        c.advance(first).1 == ActionModel::SetDiscoverable(false),
        c.advance(first).0.advance(second).1 == ActionModel::SetPairable(false),
        c.step == Step::AcceptingInterrupt,
        first == EventModel::Accepted(c.remote),
{
    let c1 = c.advance(first).0;
    let c2 = c1.advance(second).0;
    lemma_paired_holds_the_connections(c2, third);
    assert(c2.step == Step::DisablingPairing);
    assert(c1.step == Step::DisablingDiscovery);
}

/// The listeners are bound before the adapter is made discoverable, and
/// the control channel is accepted before the interrupt channel: every
/// operation but the first follows from exactly one step.
pub proof fn lemma_operations_follow_their_steps(c: ControllerModel, event: EventModel)
    ensures
        c.advance(event).1 == ActionModel::Accept(Channel::Interrupt) ==> c.step
            == Step::AcceptingControl,
        c.advance(event).1 == ActionModel::Accept(Channel::Control) ==> c.step
            == Step::ReadingClass && event == EventModel::Class(GAMEPAD_JOYSTICK_COD),
        c.advance(event).1 == ActionModel::SetDiscoverable(true) ==> c.step
            == Step::RegisteringProfile,
        c.advance(event).1 == ActionModel::RegisterProfile ==> c.step == Step::SettingAlias,
        c.advance(event).1 is Bind ==> c.step == Step::ReadingAddress || c.step
            == Step::BindingControl,
        c.advance(event).1 is ReadAddress ==> c.step == Step::RemovingDevices || (c.step
            == Step::ListingDevices && event is Devices && spec_stale_devices(event->Devices_0).len()
            == 0),
{
}

/// At rest and once paired no outcome is awaited: whatever is reported
/// changes nothing and asks for nothing. A failed attempt stays failed
/// until a new pairing is started.
pub proof fn lemma_rest_is_kept(c: ControllerModel, event: EventModel)
    requires
        c.step.spec_at_rest() || c.step == Step::Paired,
    ensures
        c.advance(event) == (c, ActionModel::Nothing),
{
}

/// A pairing under way never asks for nothing: every outcome is answered
/// with the next operation, the end of the pairing or its abortion.
pub proof fn lemma_pairing_never_stalls(c: ControllerModel, event: EventModel)
    requires
        !c.step.spec_at_rest(),
        c.step != Step::Paired,
    ensures
        !(c.advance(event).1 is Nothing),
        c.advance(event).1 is Abort <==> c.advance(event).0.step == Step::Failed,
        c.advance(event).1 is Complete <==> c.advance(event).0.step == Step::Paired,
{
}

} // verus!
