//! Plain values that stand for what the Bluetooth stack hands over.

use vstd::prelude::*;

verus! {

/// Name under which a console shows up among the known devices.
pub const NINTENDO_SWITCH_NAME: &'static str = "Nintendo Switch";

/// Class of device of a gamepad or joystick.
pub const GAMEPAD_JOYSTICK_COD: u32 = 0x002508;

/// Protocol/service multiplexer of the control channel.
pub const CTR_PSM: u16 = 17;

/// Protocol/service multiplexer of the interrupt channel.
pub const ITR_PSM: u16 = 19;

/// Number of advertised services above which an adapter counts as cluttered.
pub const MAX_SERVICE_RECORDS: usize = 3;

/// Identifier of the human interface device service.
pub const SERVICE: &'static str = "00001124-0000-1000-8000-00805f9b34fb";

/// Record of the human interface device service, an attribute set in XML.
pub const SERVICE_RECORD: &'static str = r#"<?xml version="1.0" encoding="UTF-8" ?>
<record>
    <attribute id="0x0001">
        <sequence>
            <uuid value="0x1124"/>
        </sequence>
    </attribute>
    <attribute id="0x0004">
        <sequence>
            <sequence>
                <uuid value="0x0100"/>
                <uint16 value="0x0011"/>
            </sequence>
            <sequence>
                <uuid value="0x0011"/>
            </sequence>
        </sequence>
    </attribute>
    <attribute id="0x0005">
        <sequence>
            <uuid value="0x1002"/>
        </sequence>
    </attribute>
    <attribute id="0x0006">
        <sequence>
            <uint16 value="0x656e"/>
            <uint16 value="0x006a"/>
            <uint16 value="0x0100"/>
        </sequence>
    </attribute>
    <attribute id="0x0009">
        <sequence>
            <sequence>
                <uuid value="0x1124"/>
                <uint16 value="0x0100"/>
            </sequence>
        </sequence>
    </attribute>
    <attribute id="0x000d">
        <sequence>
            <sequence>
                <sequence>
                    <uuid value="0x0100"/>
                    <uint16 value="0x0013"/>
                </sequence>
                <sequence>
                    <uuid value="0x0011"/>
                </sequence>
            </sequence>
        </sequence>
    </attribute>
    <attribute id="0x0100">
        <text value="Wireless Gamepad"/>
    </attribute>
    <attribute id="0x0101">
        <text value="Gamepad"/>
    </attribute>
    <attribute id="0x0102">
        <text value="Nintendo"/>
    </attribute>
    <attribute id="0x0200">
        <uint16 value="0x0100"/>
    </attribute>
    <attribute id="0x0201">
        <uint16 value="0x0111"/>
    </attribute>
    <attribute id="0x0202">
        <uint8 value="0x08"/>
    </attribute>
    <attribute id="0x0203">
        <uint8 value="0x00"/>
    </attribute>
    <attribute id="0x0204">
        <boolean value="true"/>
    </attribute>
    <attribute id="0x0205">
        <boolean value="true"/>
    </attribute>
    <attribute id="0x0206">
        <sequence>
            <sequence>
                <uint8 value="0x22"/>
                <text encoding="hex" value="050115000904a1018530050105091901290a150025017501950a5500650081020509190b290e150025017501950481027501950281030b01000100a1000b300001000b310001000b320001000b35000100150027ffff0000751095048102c00b39000100150025073500463b0165147504950181020509190f2912150025017501950481027508953481030600ff852109017508953f8103858109027508953f8103850109037508953f9183851009047508953f9183858009057508953f9183858209067508953f9183c0"/>
            </sequence>
        </sequence>
    </attribute>
    <attribute id="0x0207">
        <sequence>
            <sequence>
                <uint16 value="0x0409"/>
                <uint16 value="0x0100"/>
            </sequence>
        </sequence>
    </attribute>
    <attribute id="0x020b">
        <uint16 value="0x0100"/>
    </attribute>
    <attribute id="0x020c">
        <uint16 value="0x0c80"/>
    </attribute>
    <attribute id="0x020d">
        <boolean value="false"/>
    </attribute>
    <attribute id="0x020e">
        <boolean value="true"/>
    </attribute>
    <attribute id="0x020f">
        <uint16 value="0x0640"/>
    </attribute>
    <attribute id="0x0210">
        <uint16 value="0x0320"/>
    </attribute>
</record>
"#;

/// Represents a Bluetooth address.
#[derive(Clone, Copy, Debug, PartialEq, Eq)]
pub struct Address {
    /// Represents the six bytes of the address.
    pub octets: [u8; 6],
}

impl Address {
    /// Creates an `Address` from its six bytes.
    pub fn new(octets: [u8; 6]) -> (address: Address)
        ensures
            address == (Address { octets: octets }),
    {
        Address { octets }
    }

    /// Tells whether two addresses are the same.
    pub fn same(&self, other: &Address) -> (same: bool)
        ensures
            same == (*self == *other),
    {
        let same = self.octets[0] == other.octets[0] && self.octets[1] == other.octets[1]
            && self.octets[2] == other.octets[2] && self.octets[3] == other.octets[3]
            && self.octets[4] == other.octets[4] && self.octets[5] == other.octets[5];
        proof {
            if same {
                assert(self.octets =~= other.octets);
            }
        }
        same
    }
}

/// Enumeration for the two channels between a controller and its host.
#[derive(Clone, Copy, Debug, PartialEq, Eq, Structural)]
pub enum Channel {
    /// Represents the control channel.
    Control,
    /// Represents the interrupt channel.
    Interrupt,
}

impl Channel {
    /// The protocol/service multiplexer on which the channel listens.
    pub open spec fn spec_psm(self) -> u16 {
        match self {
            Channel::Control => CTR_PSM,
            Channel::Interrupt => ITR_PSM,
        }
    }

    /// Returns the protocol/service multiplexer on which the channel listens.
    pub fn psm(self) -> (psm: u16)
        ensures
            psm == self.spec_psm(),
    {
        match self {
            Channel::Control => CTR_PSM,
            Channel::Interrupt => ITR_PSM,
        }
    }
}

/// Represents a device that the adapter knows.
#[derive(Clone, Debug, PartialEq, Eq)]
pub struct Device {
    /// Represents the address of the device.
    pub address: Address,
    /// Represents the name of the device, if it has one.
    pub name: Option<String>,
}

impl Device {
    /// Whether the device is a console left over from an earlier pairing: its
    /// name is that of the console.
    pub open spec fn spec_is_stale(self) -> bool {
        self.name is Some && self.name.unwrap()@ == NINTENDO_SWITCH_NAME@
    }

    /// Tells whether the device is a console left over from an earlier pairing.
    pub fn is_stale(&self) -> (stale: bool)
        ensures
            stale == self.spec_is_stale(),
    {
        match &self.name {
            Some(name) => {
                let target = String::from_str(NINTENDO_SWITCH_NAME);
                *name == target
            },
            None => false,
        }
    }
}

/// The addresses of the devices left over from an earlier pairing, in the
/// order of the list.
pub open spec fn spec_stale_devices(devices: Seq<Device>) -> Seq<Address>
    decreases devices.len(),
{
    if devices.len() == 0 {
        Seq::<Address>::empty()
    } else if devices.last().spec_is_stale() {
        spec_stale_devices(devices.drop_last()).push(devices.last().address)
    } else {
        spec_stale_devices(devices.drop_last())
    }
}

/// Returns the addresses of the devices left over from an earlier pairing,
/// in the order of the list.
pub fn stale_devices(devices: &Vec<Device>) -> (stale: Vec<Address>)
    ensures
        stale@ == spec_stale_devices(devices@),
{
    let mut stale: Vec<Address> = Vec::new();
    let mut i: usize = 0;
    while i < devices.len()
        invariant
            i <= devices.len(),
            stale@ == spec_stale_devices(devices@.take(i as int)),
        decreases devices.len() - i,
    {
        assert(devices@.take(i + 1).drop_last() =~= devices@.take(i as int));
        if devices[i].is_stale() {
            stale.push(devices[i].address);
        }
        i += 1;
    }
    assert(devices@.take(i as int) =~= devices@);
    stale
}

/// Every device named like the console is among the stale devices, however
/// many others the list holds, and every stale device is one of those.
pub proof fn lemma_stale_devices_are_the_consoles(devices: Seq<Device>)
    ensures
        forall|i: int|
            0 <= i < devices.len() && (#[trigger] devices[i]).spec_is_stale()
                ==> spec_stale_devices(devices).contains(devices[i].address),
        forall|a: Address| #[trigger]
            spec_stale_devices(devices).contains(a) ==> exists|i: int|
                0 <= i < devices.len() && (#[trigger] devices[i]).spec_is_stale() && devices[i].address
                    == a,
    decreases devices.len(),
{
    if devices.len() > 0 {
        let init = devices.drop_last();
        let last = devices.last();
        lemma_stale_devices_are_the_consoles(init);
        let stale = spec_stale_devices(devices);
        let before = spec_stale_devices(init);
        assert forall|i: int|
            0 <= i < devices.len() && (#[trigger] devices[i]).spec_is_stale() implies stale.contains(
            devices[i].address,
        ) by {
            if i < devices.len() - 1 {
                assert(init[i] == devices[i]);
                assert(before.contains(devices[i].address));
                let k = choose|k: int| 0 <= k < before.len() && before[k] == devices[i].address;
                assert(stale[k] == devices[i].address);
            } else {
                assert(stale[stale.len() - 1] == last.address);
            }
        }
        assert forall|a: Address| #[trigger] stale.contains(a) implies exists|i: int|
            0 <= i < devices.len() && (#[trigger] devices[i]).spec_is_stale() && devices[i].address
                == a by {
            let k = choose|k: int| 0 <= k < stale.len() && stale[k] == a;
            if k < before.len() {
                assert(before[k] == a);
                assert(before.contains(a));
                let i = choose|i: int|
                    0 <= i < init.len() && (#[trigger] init[i]).spec_is_stale() && init[i].address
                        == a;
                assert(devices[i] == init[i]);
            } else {
                assert(devices[devices.len() - 1] == last);
            }
        }
    }
}

/// Represents what a pairing attempt holds and has to give back.
#[derive(Clone, Copy, Debug, PartialEq, Eq, Structural)]
pub struct Resources {
    /// Represents the listener of the control channel.
    pub control_listener: bool,
    /// Represents the listener of the interrupt channel.
    pub interrupt_listener: bool,
    /// Represents the registered service record.
    pub profile: bool,
    /// Represents the connection on the control channel.
    pub control_socket: bool,
    /// Represents the connection on the interrupt channel.
    pub interrupt_socket: bool,
}

impl Resources {
    /// Nothing is held.
    pub open spec fn spec_none() -> Resources {
        Resources {
            control_listener: false,
            interrupt_listener: false,
            profile: false,
            control_socket: false,
            interrupt_socket: false,
        }
    }

    /// Returns the resources of an attempt that holds nothing.
    pub fn none() -> (held: Resources)
        ensures
            held == Resources::spec_none(),
    {
        Resources {
            control_listener: false,
            interrupt_listener: false,
            profile: false,
            control_socket: false,
            interrupt_socket: false,
        }
    }
}

/// Represents the service record that a controller registers.
#[derive(Clone, Debug, PartialEq, Eq)]
pub struct ServiceProfile {
    /// Represents the identifier of the service.
    pub service: String,
    /// Represents whether the controller takes the server role.
    pub server: bool,
    /// Represents whether a connection has to be authenticated.
    pub require_authentication: bool,
    /// Represents whether a connection has to be authorized.
    pub require_authorization: bool,
    /// Represents the record, an attribute set in XML.
    pub service_record: String,
}

impl ServiceProfile {
    /// Creates the service record of a wireless gamepad.
    pub fn gamepad() -> (profile: ServiceProfile)
        ensures
            profile.service@ == SERVICE@,
            profile.service_record@ == SERVICE_RECORD@,
            profile.server,
            profile.require_authentication,
            profile.require_authorization,
    {
        ServiceProfile::new_service_record(
            String::from_str(SERVICE),
            String::from_str(SERVICE_RECORD),
        )
    }

    /// Creates a `ServiceProfile` which represents a service record: a
    /// server that asks for authentication and authorization.
    pub fn new_service_record(service: String, service_record: String) -> (profile: ServiceProfile)
        ensures
            profile.service@ == service@,
            profile.service_record@ == service_record@,
            profile.server,
            profile.require_authentication,
            profile.require_authorization,
    {
        ServiceProfile {
            service,
            server: true,
            require_authentication: true,
            require_authorization: true,
            service_record,
        }
    }
}

} // verus!
