//! An interface that was claimed, and which of its endpoints are in use.

use std::collections::{HashMap, HashSet};
use std::sync::Arc;

use vstd::prelude::*;

use crate::descriptor::{EndpointDescriptor, InterfaceDescriptor, TransferType};
use crate::device::{
    interface_map, interface_map_lists_described_endpoints, DeviceView, IllumosDevice,
};
use crate::endpoint::{EndpointView, IllumosEndpoint};
use crate::error::{Error, ErrorKind, ErrorView};
use crate::node::RawEndpoint;
use crate::usb::{address_shows_direction, Direction};

verus! {

/// A set of endpoint addresses.
#[derive(Debug)]
pub struct EndpointSet {
    pub addresses: HashSet<u8>,
}

impl View for EndpointSet {
    type V = Set<u8>;

    open spec fn view(&self) -> Set<u8> {
        self.addresses@
    }
}

impl EndpointSet {
    /// The empty set.
    pub fn new() -> (set: EndpointSet)
        ensures
            set@ == Set::<u8>::empty(),
    {
        EndpointSet { addresses: HashSet::new() }
    }

    /// Whether `address` is in the set.
    pub fn is_set(&self, address: u8) -> (yes: bool)
        ensures
            yes == self@.contains(address),
    {
        broadcast use vstd::std_specs::hash::group_hash_axioms;

        self.addresses.contains(&address)
    }

    /// Puts `address` into the set.
    pub fn set(&mut self, address: u8)
        ensures
            final(self)@ == old(self)@.insert(address),
    {
        broadcast use vstd::std_specs::hash::group_hash_axioms;

        self.addresses.insert(address);
    }

    /// Takes `address` out of the set.
    pub fn clear(&mut self, address: u8)
        ensures
            final(self)@ == old(self)@.remove(address),
    {
        broadcast use vstd::std_specs::hash::group_hash_axioms;

        self.addresses.remove(&address);
        assert(self@ =~= old(self)@.remove(address));
    }
}

/// What changes on an interface while it is claimed.
#[derive(Debug)]
pub struct InterfaceState {
    pub alt_setting: u8,
    /// The endpoints that are in use.
    pub endpoints: EndpointSet,
}

/// The open nodes of an endpoint.
#[derive(Clone, Copy, Debug, PartialEq, Eq, Structural)]
pub struct IllumosUsbFds {
    pub fd: i32,
    pub stat_fd: i32,
}

/// A claimed interface.
#[derive(Debug)]
pub struct IllumosInterface {
    pub interface_number: u8,
    pub device: Arc<IllumosDevice>,
    /// The open nodes of each endpoint, by its address.
    pub fds: HashMap<u8, IllumosUsbFds>,
    pub state: InterfaceState,
}

/// An [`IllumosInterface`] as a mathematical value.
pub ghost struct InterfaceView {
    pub interface_number: u8,
    pub device: DeviceView,
    pub fds: Map<u8, IllumosUsbFds>,
    pub alt_setting: u8,
    pub in_use: Set<u8>,
}

impl View for IllumosInterface {
    type V = InterfaceView;

    open spec fn view(&self) -> InterfaceView {
        InterfaceView {
            interface_number: self.interface_number,
            device: self.device@,
            fds: self.fds@,
            alt_setting: self.state.alt_setting,
            in_use: self.state.endpoints@,
        }
    }
}

/// Whether one of `endpoints` has the given address.
pub open spec fn has_address(endpoints: Seq<RawEndpoint>, address: u8) -> bool {
    exists|i: int| 0 <= i < endpoints.len() && (#[trigger] endpoints[i]).address == address
}

impl InterfaceView {
    /// The endpoints of the interface.
    pub open spec fn endpoints(self) -> Seq<RawEndpoint> {
        self.device.interfaces[self.interface_number]
    }

    /// The interface exists, and the nodes of exactly its endpoints are open.
    pub open spec fn wf(self) -> bool {
        &&& self.device.wf()
        &&& self.device.interfaces.contains_key(self.interface_number)
        &&& forall|address: u8| #[trigger]
            self.fds.contains_key(address) <==> has_address(self.endpoints(), address)
    }

    /// The endpoint of this interface that `descriptor` describes.
    pub open spec fn described(self, descriptor: EndpointDescriptor) -> RawEndpoint {
        RawEndpoint {
            interface_number: self.interface_number,
            address: descriptor.address,
            transfer_type: descriptor.transfer_type,
            direction: Direction::of_address(descriptor.address),
        }
    }

    /// The interface after the endpoint with the given address was put to use.
    pub open spec fn after_acquire(self, address: u8) -> InterfaceView {
        InterfaceView { in_use: self.in_use.insert(address), ..self }
    }

    /// The interface after the endpoint with the given address was given back.
    pub open spec fn after_release(self, address: u8) -> InterfaceView {
        InterfaceView { in_use: self.in_use.remove(address), ..self }
    }
}

impl IllumosInterface {
    /// A claimed interface, in its first alternate setting and with no endpoint
    /// in use.
    pub fn new(
        device: Arc<IllumosDevice>,
        interface_number: u8,
        fds: HashMap<u8, IllumosUsbFds>,
    ) -> (interface: IllumosInterface)
        ensures
            interface@ == (InterfaceView {
                interface_number,
                device: device@,
                fds: fds@,
                alt_setting: 0,
                in_use: Set::empty(),
            }),
    {
        IllumosInterface {
            interface_number,
            device,
            fds,
            state: InterfaceState { alt_setting: 0, endpoints: EndpointSet::new() },
        }
    }

    /// The alternate setting that is selected.
    pub fn get_alt_setting(&self) -> (alt_setting: u8)
        ensures
            alt_setting == self@.alt_setting,
            alt_setting == self.state.alt_setting,
    {
        self.state.alt_setting
    }

    /// The endpoint of this interface with the given address and type, if it
    /// has one.
    pub fn find_endpoint(&self, address: u8, transfer_type: TransferType) -> (raw: Option<RawEndpoint>)
        requires
            self@.wf(),
        ensures
            match raw {
                Some(raw) => {
                    &&& self@.endpoints().contains(raw)
                    &&& raw.interface_number == self@.interface_number
                    &&& raw.address == address
                    &&& raw.transfer_type == transfer_type
                    &&& raw.direction == Direction::of_address(address)
                },
                None => forall|i: int|
                    0 <= i < self@.endpoints().len() ==> {
                        ||| (#[trigger] self@.endpoints()[i]).address != address
                        ||| self@.endpoints()[i].transfer_type != transfer_type
                    },
            },
    {
        broadcast use vstd::std_specs::hash::group_hash_axioms;

        let ghost all = self@.endpoints();
        match self.device.interfaces.get(&self.interface_number) {
            Some(endpoints) => {
                assert(endpoints@ == all);
                let mut i: usize = 0;
                while i < endpoints.len()
                    invariant
                        i <= endpoints@.len(),
                        endpoints@ == all,
                        all == self@.endpoints(),
                        self@.wf(),
                        forall|j: int|
                            0 <= j < i ==> {
                                ||| (#[trigger] all[j]).address != address
                                ||| all[j].transfer_type != transfer_type
                            },
                    decreases endpoints@.len() - i,
                {
                    let raw = endpoints[i];
                    if raw.address == address && raw.transfer_type == transfer_type {
                        assert(raw == self@.device.interfaces[self.interface_number][i as int]);
                        return Some(raw);
                    }
                    i = i + 1;
                }
                None
            },
            None => None,
        }
    }

    /// Puts the endpoint that `descriptor` describes to use. It can be in use
    /// once at a time.
    pub fn endpoint(&mut self, descriptor: EndpointDescriptor) -> (result: Result<
        IllumosEndpoint,
        Error,
    >)
        requires
            old(self)@.wf(),
            !old(self)@.in_use.contains(descriptor.address) ==> old(self)@.endpoints().contains(
                old(self)@.described(descriptor),
            ),
        ensures
            final(self)@.wf(),
            old(self)@.in_use.contains(descriptor.address) ==> {
                &&& final(self)@ == old(self)@
                &&& result matches Err(error) && error@ == ErrorView::plain(
                    ErrorKind::Busy,
                    "endpoint already in use",
                )
            },
            !old(self)@.in_use.contains(descriptor.address) ==> {
                let fds = old(self)@.fds[descriptor.address];
                &&& final(self)@ == old(self)@.after_acquire(descriptor.address)
                &&& result matches Ok(endpoint) && endpoint@ == EndpointView::opened(
                    old(self)@.described(descriptor),
                    fds.fd,
                    fds.stat_fd,
                    descriptor.max_packet_size,
                ) && endpoint@.wf()
            },
            result is Err <==> old(self)@.in_use.contains(descriptor.address),
            result matches Ok(endpoint) ==> {
                &&& endpoint.raw.interface_number == old(self).interface_number
                &&& endpoint.raw.address == descriptor.address
                &&& endpoint.raw.transfer_type == descriptor.transfer_type
                &&& endpoint.fd == old(self).fds@[descriptor.address].fd
                &&& endpoint.stat_fd == old(self).fds@[descriptor.address].stat_fd
                &&& endpoint.max_packet_size == descriptor.max_packet_size
                &&& final(self)@.in_use == old(self)@.in_use.insert(descriptor.address)
            },
    {
        broadcast use vstd::std_specs::hash::group_hash_axioms;

        let address: u8 = descriptor.address;
        if self.state.endpoints.is_set(address) {
            return Err(Error::new(ErrorKind::Busy, "endpoint already in use"));
        }
        proof {
            let all = self@.endpoints();
            let raw = self@.described(descriptor);
            let i = choose|i: int| 0 <= i < all.len() && all[i] == raw;
            assert(all[i].address == address && all[i].transfer_type == descriptor.transfer_type);
            assert(has_address(all, address));
            assert(self@.fds.contains_key(address));
        }
        let raw = self.find_endpoint(address, descriptor.transfer_type).unwrap();
        self.state.endpoints.set(address);
        let fds: IllumosUsbFds = *self.fds.get(&address).unwrap();
        Ok(IllumosEndpoint::new(raw, fds.fd, fds.stat_fd, descriptor.max_packet_size))
    }

    /// Gives the endpoint with the given address back.
    pub fn release_endpoint(&mut self, address: u8)
        requires
            old(self)@.wf(),
        ensures
            final(self)@ == old(self)@.after_release(address),
            final(self)@.wf(),
    {
        self.state.endpoints.clear(address);
        assert(self@ == old(self)@.after_release(address));
        assert(self@.endpoints() == old(self)@.endpoints());
    }
}

/// An endpoint that was put to use is not given out again until it is given
/// back; giving it back undoes the taking, and neither touches another endpoint.
pub proof fn endpoints_are_exclusive(interface: InterfaceView, address: u8, other: u8)
    requires
        !interface.in_use.contains(address),
        address != other,
    ensures
        interface.after_acquire(address).in_use.contains(address),
        !interface.after_acquire(address).after_release(address).in_use.contains(address),
        interface.after_acquire(address).after_release(address) == interface,
        interface.after_acquire(address).in_use == interface.in_use.insert(address),
        interface.after_acquire(address).device == interface.device,
        interface.after_acquire(address).interface_number == interface.interface_number,
        interface.after_acquire(address).fds == interface.fds,
        interface.after_acquire(address).alt_setting == interface.alt_setting,
        interface.after_acquire(address).in_use.contains(other) == interface.in_use.contains(other),
        interface.after_release(address).in_use.contains(other) == interface.in_use.contains(other),
{
    assert(interface.in_use.insert(address).remove(address) =~= interface.in_use);
}

/// Giving an endpoint back frees its address and changes nothing else.
pub proof fn release_frees_the_address(interface: InterfaceView, address: u8)
    ensures
        interface.after_release(address).in_use == interface.in_use.remove(address),
        interface.after_release(address).device == interface.device,
        interface.after_release(address).interface_number == interface.interface_number,
        interface.after_release(address).fds == interface.fds,
        interface.after_release(address).alt_setting == interface.alt_setting,
{
}

/// The endpoint that a descriptor describes has the address and the transfer type
/// of the descriptor, and receives if the highest bit of that address is set.
pub proof fn described_endpoint_fields(interface: InterfaceView, descriptor: EndpointDescriptor)
    ensures
        interface.described(descriptor).interface_number == interface.interface_number,
        interface.described(descriptor).address == descriptor.address,
        interface.described(descriptor).transfer_type == descriptor.transfer_type,
        interface.described(descriptor).direction is In <==> descriptor.address & 0x80 != 0,
        interface.endpoints() == interface.device.interfaces[interface.interface_number],
{
    address_shows_direction(descriptor.address);
}

/// Every endpoint that the configuration of a device describes can be put to use
/// once its interface is claimed: it is found by the address and the transfer type
/// of its descriptor, and its nodes are open.
pub proof fn described_endpoints_can_be_used(
    interfaces: Seq<InterfaceDescriptor>,
    last: int,
    interface: InterfaceView,
    i: int,
)
    requires
        0 <= last < interfaces.len(),
        forall|k: int|
            last < k < interfaces.len() ==> (#[trigger] interfaces[k]).interface_number
                != interfaces[last].interface_number,
        interface.device.interfaces == interface_map(interfaces),
        interface.interface_number == interfaces[last].interface_number,
        interface.wf(),
        0 <= i < interfaces[last].endpoints@.len(),
    ensures
        interface.endpoints().contains(interface.described(interfaces[last].endpoints@[i])),
        interface.fds.contains_key(interfaces[last].endpoints@[i].address),
{
    interface_map_lists_described_endpoints(interfaces, last);
    let descriptor = interfaces[last].endpoints@[i];
    described_endpoint_fields(interface, descriptor);
    let listed = interface.endpoints()[i];
    assert(listed == interface.described(descriptor));
    assert(has_address(interface.endpoints(), descriptor.address));
}

/// The mathematical value of an interface has all its parts.
pub proof fn interface_view_is_faithful(interface: IllumosInterface)
    ensures
        interface@.interface_number == interface.interface_number,
        interface@.device == interface.device@,
        interface@.fds == interface.fds@,
        interface@.alt_setting == interface.state.alt_setting,
        interface@.in_use == interface.state.endpoints@,
        interface.state.endpoints@ == interface.state.endpoints.addresses@,
{
}

} // verus!
