//! An open device, and what is known of it.

use std::collections::HashMap;

use vstd::prelude::*;

use crate::descriptor::{EndpointDescriptor, InterfaceDescriptor};
use crate::node::RawEndpoint;
use crate::paths::DevfsPath;
use crate::usb::{address_shows_direction, Direction};

verus! {

/// The speed of a device on the bus.
#[derive(Clone, Copy, Debug, PartialEq, Eq, Structural)]
pub enum Speed {
    Low,
    Full,
    High,
    Super,
    SuperPlus,
}

/// An open device.
#[derive(Debug)]
pub struct IllumosDevice {
    /// The control node.
    pub fd: i32,
    /// The status node of the control pipe.
    pub stat_fd: i32,
    pub device_descriptor: Vec<u8>,
    pub config_descriptors: Vec<u8>,
    pub active_config: u8,
    pub paths: DevfsPath,
    /// The endpoints of each interface.
    pub interfaces: HashMap<u8, Vec<RawEndpoint>>,
}

/// An [`IllumosDevice`] as a mathematical value.
#[verifier::ext_equal]
pub ghost struct DeviceView {
    pub fd: i32,
    pub stat_fd: i32,
    pub device_descriptor: Seq<u8>,
    pub config_descriptors: Seq<u8>,
    pub active_config: u8,
    pub paths: Map<Seq<char>, Seq<char>>,
    pub interfaces: Map<u8, Seq<RawEndpoint>>,
}

impl View for IllumosDevice {
    type V = DeviceView;

    open spec fn view(&self) -> DeviceView {
        DeviceView {
            fd: self.fd,
            stat_fd: self.stat_fd,
            device_descriptor: self.device_descriptor@,
            config_descriptors: self.config_descriptors@,
            active_config: self.active_config,
            paths: self.paths@,
            interfaces: self.interfaces@.map_values(|endpoints: Vec<RawEndpoint>| endpoints@),
        }
    }
}

/// The endpoint that `endpoint` describes on the interface `interface_number`.
pub open spec fn raw_endpoint(interface_number: u8, endpoint: EndpointDescriptor) -> RawEndpoint {
    RawEndpoint {
        interface_number,
        address: endpoint.address,
        transfer_type: endpoint.transfer_type,
        direction: Direction::of_address(endpoint.address),
    }
}

/// The endpoints of an interface, in the order of their descriptors.
pub open spec fn raw_endpoints(interface: InterfaceDescriptor) -> Seq<RawEndpoint> {
    Seq::new(
        interface.endpoints@.len(),
        |i: int| raw_endpoint(interface.interface_number, interface.endpoints@[i]),
    )
}

/// The endpoints of each interface. Of two descriptors with the same number the
/// later one counts.
pub open spec fn interface_map(interfaces: Seq<InterfaceDescriptor>) -> Map<u8, Seq<RawEndpoint>>
    decreases interfaces.len(),
{
    if interfaces.len() == 0 {
        Map::empty()
    } else {
        interface_map(interfaces.drop_last()).insert(
            interfaces.last().interface_number,
            raw_endpoints(interfaces.last()),
        )
    }
}

/// Finds the endpoints of an interface.
fn collect_endpoints(interface: &InterfaceDescriptor) -> (endpoints: Vec<RawEndpoint>)
    ensures
        endpoints@ == raw_endpoints(*interface),
        endpoints@.len() == interface.endpoints@.len(),
        forall|i: int|
            0 <= i < interface.endpoints@.len() ==> {
                &&& (#[trigger] endpoints@[i]).interface_number == interface.interface_number
                &&& endpoints@[i].address == interface.endpoints@[i].address
                &&& endpoints@[i].transfer_type == interface.endpoints@[i].transfer_type
            },
{
    let mut endpoints: Vec<RawEndpoint> = Vec::new();
    let mut i: usize = 0;
    while i < interface.endpoints.len()
        invariant
            i <= interface.endpoints@.len(),
            endpoints@ =~= raw_endpoints(*interface).take(i as int),
        decreases interface.endpoints@.len() - i,
    {
        let endpoint = interface.endpoints[i];
        endpoints.push(
            RawEndpoint {
                interface_number: interface.interface_number,
                address: endpoint.address,
                direction: endpoint.direction(),
                transfer_type: endpoint.transfer_type,
            },
        );
        i = i + 1;
    }
    endpoints
}

/// Finds the endpoints of each interface.
pub fn collect_interfaces(interfaces: &Vec<InterfaceDescriptor>) -> (map: HashMap<
    u8,
    Vec<RawEndpoint>,
>)
    ensures
        map@.map_values(|endpoints: Vec<RawEndpoint>| endpoints@) == interface_map(interfaces@),
{
    broadcast use vstd::std_specs::hash::group_hash_axioms;

    let mut map: HashMap<u8, Vec<RawEndpoint>> = HashMap::new();
    let ghost endpoints_of = |endpoints: Vec<RawEndpoint>| endpoints@;
    assert(interfaces@.take(0) =~= Seq::empty());
    assert(map@.map_values(endpoints_of) =~= Map::empty());
    let mut i: usize = 0;
    while i < interfaces.len()
        invariant
            i <= interfaces@.len(),
            endpoints_of == (|endpoints: Vec<RawEndpoint>| endpoints@),
            map@.map_values(endpoints_of) == interface_map(interfaces@.take(i as int)),
        decreases interfaces@.len() - i,
    {
        let interface = &interfaces[i];
        let ghost before = map@;
        let endpoints = collect_endpoints(interface);
        map.insert(interface.interface_number, endpoints);
        assert(map@ == before.insert(interface.interface_number, endpoints));
        assert(map@.map_values(endpoints_of) =~= before.map_values(endpoints_of).insert(
            interface.interface_number,
            endpoints@,
        ));
        assert(interfaces@.take(i + 1).drop_last() =~= interfaces@.take(i as int));
        assert(interfaces@.take(i + 1).last() == *interface);
        i = i + 1;
    }
    assert(interfaces@.take(i as int) =~= interfaces@);
    map
}

impl DeviceView {
    /// Every endpoint is listed under the number of its interface.
    pub open spec fn wf(self) -> bool {
        forall|n: u8, i: int|
            self.interfaces.contains_key(n) && 0 <= i < self.interfaces[n].len() ==> {
                &&& (#[trigger] self.interfaces[n][i]).interface_number == n
                &&& self.interfaces[n][i].wf()
            }
    }
}

impl IllumosDevice {
    /// The bytes of the device descriptor.
    pub fn device_descriptor(&self) -> (bytes: &Vec<u8>)
        ensures
            bytes@ == self@.device_descriptor,
            bytes@ == self.device_descriptor@,
    {
        &self.device_descriptor
    }

    /// The bytes of the configuration descriptors.
    pub fn configuration_descriptors(&self) -> (bytes: &Vec<u8>)
        ensures
            bytes@ == self@.config_descriptors,
            bytes@ == self.config_descriptors@,
    {
        &self.config_descriptors
    }

    /// The value of the configuration that was active when the device was opened.
    pub fn active_configuration_value(&self) -> (value: u8)
        ensures
            value == self@.active_config,
            value == self.active_config,
    {
        self.active_config
    }

    /// The speed of the device, which the driver does not tell.
    pub fn speed(&self) -> (speed: Option<Speed>)
        ensures
            speed is None,
    {
        None
    }
}

/// The endpoints that are collected for an interface carry its number, and
/// their direction is that of their address.
pub proof fn interface_map_is_by_number(interfaces: Seq<InterfaceDescriptor>)
    ensures
        forall|n: u8, i: int|
            interface_map(interfaces).contains_key(n) && 0 <= i < interface_map(
                interfaces,
            )[n].len() ==> {
                &&& (#[trigger] interface_map(interfaces)[n][i]).interface_number == n
                &&& interface_map(interfaces)[n][i].wf()
            },
    decreases interfaces.len(),
{
    if interfaces.len() > 0 {
        interface_map_is_by_number(interfaces.drop_last());
    }
}

/// An interface is listed if there is a descriptor with its number.
pub proof fn interface_map_lists_all(interfaces: Seq<InterfaceDescriptor>, n: u8)
    ensures
        interface_map(interfaces).contains_key(n) <==> exists|i: int|
            0 <= i < interfaces.len() && (#[trigger] interfaces[i]).interface_number == n,
    decreases interfaces.len(),
{
    if interfaces.len() > 0 {
        let rest = interfaces.drop_last();
        interface_map_lists_all(rest, n);
        if interface_map(rest).contains_key(n) {
            let i = choose|i: int|
                0 <= i < rest.len() && (#[trigger] rest[i]).interface_number == n;
            assert(interfaces[i].interface_number == n);
        }
        if interfaces.last().interface_number == n {
            assert(interfaces[interfaces.len() - 1].interface_number == n);
        }
        assert forall|i: int|
            0 <= i < interfaces.len() && (#[trigger] interfaces[i]).interface_number == n implies
            interface_map(interfaces).contains_key(n) by {
            if i < rest.len() {
                assert(rest[i].interface_number == n);
            }
        }
    }
}

/// The endpoints that are listed for an interface are those of the last
/// descriptor with its number, in the same order: each with the address and the
/// transfer type that the descriptor gives it, and with the direction that is the
/// highest bit of its address.
pub proof fn interface_map_lists_described_endpoints(
    interfaces: Seq<InterfaceDescriptor>,
    last: int,
)
    requires
        0 <= last < interfaces.len(),
        forall|i: int|
            last < i < interfaces.len() ==> (#[trigger] interfaces[i]).interface_number
                != interfaces[last].interface_number,
    ensures
        ({
            let described = interfaces[last];
            let listed = interface_map(interfaces)[described.interface_number];
            &&& interface_map(interfaces).contains_key(described.interface_number)
            &&& listed.len() == described.endpoints@.len()
            &&& forall|i: int|
                0 <= i < listed.len() ==> {
                    &&& (#[trigger] listed[i]).interface_number == described.interface_number
                    &&& listed[i].address == described.endpoints@[i].address
                    &&& listed[i].transfer_type == described.endpoints@[i].transfer_type
                    &&& listed[i].direction is In <==> described.endpoints@[i].address & 0x80 != 0
                }
        }),
    decreases interfaces.len(),
{
    let described = interfaces[last];
    assert forall|i: int| 0 <= i < described.endpoints@.len() implies (
    Direction::of_address((#[trigger] described.endpoints@[i]).address) is In
        <==> described.endpoints@[i].address & 0x80 != 0) by {
        address_shows_direction(described.endpoints@[i].address);
    }
    if last < interfaces.len() - 1 {
        let rest = interfaces.drop_last();
        assert(interfaces.last() == interfaces[interfaces.len() - 1]);
        assert forall|i: int| last < i < rest.len() implies (#[trigger] rest[i]).interface_number
            != rest[last].interface_number by {
            assert(rest[i] == interfaces[i]);
        }
        interface_map_lists_described_endpoints(rest, last);
    }
}

/// The mathematical value of a device has all its parts.
pub proof fn device_view_is_faithful(device: IllumosDevice)
    ensures
        device@.fd == device.fd,
        device@.stat_fd == device.stat_fd,
        device@.device_descriptor == device.device_descriptor@,
        device@.config_descriptors == device.config_descriptors@,
        device@.active_config == device.active_config,
        device@.paths == device.paths@,
        forall|n: u8| #[trigger]
            device@.interfaces.contains_key(n) <==> device.interfaces@.contains_key(n),
        forall|n: u8|
            device.interfaces@.contains_key(n) ==> #[trigger] device@.interfaces[n]
                == device.interfaces@[n]@,
{
}

} // verus!
