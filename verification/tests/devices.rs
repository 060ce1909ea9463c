use std::sync::Arc;

use illumos_ugen::claim::{Claim, ClaimAction};
use illumos_ugen::control::ControlAction;
use illumos_ugen::descriptor::{
    DescriptorType, EndpointDescriptor, InterfaceDescriptor, TransferType,
};
use illumos_ugen::device::{collect_interfaces, IllumosDevice};
use illumos_ugen::errno::{Errno, Errnos};
use illumos_ugen::error::{Error, ErrorKind};
use illumos_ugen::interface::IllumosInterface;
use illumos_ugen::node::OpenBits;
use illumos_ugen::opening::{Opening, OpeningAction};
use illumos_ugen::paths::DevfsPath;
use illumos_ugen::usb::{ControlIn, ControlOut, ControlType, Direction, Recipient};

fn bulk(address: u8) -> EndpointDescriptor {
    EndpointDescriptor { address, transfer_type: TransferType::Bulk, max_packet_size: 64 }
}

fn interface(interface_number: u8, endpoints: Vec<EndpointDescriptor>) -> InterfaceDescriptor {
    InterfaceDescriptor { interface_number, endpoints }
}

fn paths(names: &[&str]) -> DevfsPath {
    let mut paths = DevfsPath::new();
    for name in names {
        paths.insert(String::from(*name), format!("/dev/usb/{}", name));
    }
    paths
}

fn all_nodes() -> DevfsPath {
    paths(&["cntrl0", "cntrl0stat", "if0in1", "if0in1stat", "if0out2", "if0out2stat"])
}

fn opened_path(opening: &Opening) -> (String, u32) {
    match opening.action(&OpenBits::host()) {
        OpeningAction::Open { path, flags } => (path, flags),
        other => panic!("{:?}", other),
    }
}

fn claimed_path(claim: &Claim) -> (String, u32) {
    match claim.action(&OpenBits::host()) {
        ClaimAction::Open { path, flags } => (path, flags),
        other => panic!("{:?}", other),
    }
}

fn open_device(nodes: DevfsPath, interfaces: Vec<InterfaceDescriptor>) -> IllumosDevice {
    let errnos = Errnos::host();
    IllumosDevice::from_device_info(nodes)
        .opened(Ok(3), &errnos)
        .opened(Ok(4), &errnos)
        .descriptor_read(vec![18, 1])
        .configuration_read(1)
        .descriptor_read(vec![9, 2])
        .parsed(&interfaces)
        .finish()
        .unwrap()
}

fn two_endpoints() -> Vec<InterfaceDescriptor> {
    vec![interface(0, vec![bulk(0x81), bulk(0x02)])]
}

fn failure<T>(result: Result<T, Error>) -> (ErrorKind, Option<u32>, &'static str) {
    match result {
        Ok(_) => panic!("expected a failure"),
        Err(error) => (error.kind, error.code, error.message),
    }
}

fn claimed() -> IllumosInterface {
    let device = Arc::new(open_device(all_nodes(), two_endpoints()));
    IllumosDevice::claim_interface(device, 0)
        .opened(Ok(10))
        .opened(Ok(11))
        .opened(Ok(12))
        .opened(Ok(13))
        .finish()
        .unwrap()
}

#[test]
fn paths_are_found_by_name() {
    let mut nodes = paths(&["a", "b"]);
    assert_eq!(nodes.get(&String::from("a")).unwrap(), "/dev/usb/a");
    assert_eq!(nodes.get(&String::from("b")).unwrap(), "/dev/usb/b");
    assert!(nodes.get(&String::from("c")).is_none());
    nodes.insert(String::from("a"), String::from("/dev/other"));
    assert_eq!(nodes.get(&String::from("a")).unwrap(), "/dev/other");
}

#[test]
fn a_device_is_opened_step_by_step() {
    let bits = OpenBits::host();
    let errnos = Errnos::host();
    let opening = IllumosDevice::from_device_info(all_nodes());
    let control = bits.rdwr | bits.cloexec;
    assert_eq!(opened_path(&opening), (String::from("/dev/usb/cntrl0"), control));
    let opening = opening.opened(Ok(3), &errnos);
    assert_eq!(opened_path(&opening), (String::from("/dev/usb/cntrl0stat"), control));
    let opening = opening.opened(Ok(4), &errnos);
    assert!(matches!(
        opening.action(&bits),
        OpeningAction::GetDescriptor(DescriptorType::Device)
    ));
    let opening = opening.descriptor_read(vec![18, 1]);
    assert!(matches!(opening.action(&bits), OpeningAction::GetConfiguration));
    let opening = opening.configuration_read(7);
    assert!(matches!(
        opening.action(&bits),
        OpeningAction::GetDescriptor(DescriptorType::Configuration { index: 0 })
    ));
    let opening = opening.descriptor_read(vec![9, 2, 9, 0]);
    assert!(matches!(opening.action(&bits), OpeningAction::ParseConfiguration));
    let opening = opening.parsed(&two_endpoints());
    assert!(matches!(opening.action(&bits), OpeningAction::Finished));
    let device = opening.finish().unwrap();
    assert_eq!((device.fd, device.stat_fd), (3, 4));
    assert_eq!(device.device_descriptor(), &vec![18, 1]);
    assert_eq!(device.configuration_descriptors(), &vec![9, 2, 9, 0]);
    assert_eq!(device.active_configuration_value(), 7);
    assert!(device.speed().is_none());
    let endpoints = &device.interfaces[&0];
    assert_eq!(endpoints.len(), 2);
    assert_eq!((endpoints[0].address, endpoints[0].direction), (0x81, Direction::In));
    assert_eq!((endpoints[1].address, endpoints[1].direction), (0x02, Direction::Out));
    assert_eq!(endpoints[1].interface_number, 0);
}

#[test]
fn a_device_without_control_nodes_is_not_opened() {
    let errnos = Errnos::host();
    let opening = IllumosDevice::from_device_info(paths(&["cntrl0stat"]));
    assert!(matches!(opening.action(&OpenBits::host()), OpeningAction::Finished));
    assert_eq!(failure(opening.finish()), (ErrorKind::Other, None, "not ugen"));
    let opening = IllumosDevice::from_device_info(paths(&["cntrl0"])).opened(Ok(3), &errnos);
    assert_eq!(failure(opening.finish()), (ErrorKind::Other, None, "not ugen"));
}

#[test]
fn a_control_node_that_cannot_be_opened() {
    let errnos = Errnos::host();
    let gone = Err(Errno::from_raw_os_error(errnos.noent));
    let opening = IllumosDevice::from_device_info(paths(&["cntrl0"])).opened(gone, &errnos);
    let noent = Some(errnos.noent as u32);
    assert_eq!(failure(opening.finish()), (ErrorKind::Disconnected, noent, "device not found"));
    let denied = Err(Errno::from_raw_os_error(errnos.perm));
    let opening = IllumosDevice::from_device_info(all_nodes())
        .opened(Ok(3), &errnos)
        .opened(denied, &errnos);
    let perm = Some(errnos.perm as u32);
    assert_eq!(
        failure(opening.finish()),
        (ErrorKind::PermissionDenied, perm, "permission denied")
    );
    let other = Err(Errno::from_raw_os_error(errnos.nodev));
    let opening = IllumosDevice::from_device_info(all_nodes()).opened(other, &errnos);
    let nodev = Some(errnos.nodev as u32);
    assert_eq!(failure(opening.finish()), (ErrorKind::Other, nodev, "failed to open device"));
}

#[test]
fn of_two_interfaces_with_one_number_the_later_counts() {
    let map = collect_interfaces(&vec![
        interface(1, vec![bulk(0x81)]),
        interface(2, vec![]),
        interface(1, vec![bulk(0x03), bulk(0x84)]),
    ]);
    assert_eq!(map.len(), 2);
    assert_eq!(map[&1].len(), 2);
    assert_eq!(map[&1][0].address, 0x03);
    assert_eq!(map[&1][0].interface_number, 1);
    assert_eq!(map[&1][1].direction, Direction::In);
    assert!(map[&2].is_empty());
}

#[test]
fn an_interface_is_claimed_step_by_step() {
    let bits = OpenBits::host();
    let device = Arc::new(open_device(all_nodes(), two_endpoints()));
    let claim = IllumosDevice::detach_and_claim_interface(device, 0);
    let (read, write) = (bits.cloexec | bits.rdonly, bits.cloexec | bits.wronly);
    assert_eq!(claimed_path(&claim), (String::from("/dev/usb/if0in1"), read));
    let claim = claim.opened(Ok(10));
    assert_eq!(claimed_path(&claim), (String::from("/dev/usb/if0in1stat"), read));
    let claim = claim.opened(Ok(11));
    assert_eq!(claimed_path(&claim), (String::from("/dev/usb/if0out2"), write));
    let claim = claim.opened(Ok(12));
    assert_eq!(claimed_path(&claim), (String::from("/dev/usb/if0out2stat"), write));
    let claim = claim.opened(Ok(13));
    assert!(matches!(claim.action(&bits), ClaimAction::Finished));
    let interface = claim.finish().unwrap();
    assert_eq!(interface.interface_number, 0);
    assert_eq!(interface.get_alt_setting(), 0);
    assert_eq!(interface.fds.len(), 2);
    assert_eq!((interface.fds[&0x81].fd, interface.fds[&0x81].stat_fd), (10, 11));
    assert_eq!((interface.fds[&0x02].fd, interface.fds[&0x02].stat_fd), (12, 13));
}

#[test]
fn an_interface_without_endpoints_is_claimed_at_once() {
    let device = Arc::new(open_device(all_nodes(), vec![interface(5, vec![])]));
    let interface = IllumosDevice::claim_interface(device, 5).finish().unwrap();
    assert!(interface.fds.is_empty());
}

#[test]
fn claims_that_fail() {
    let device = Arc::new(open_device(all_nodes(), two_endpoints()));
    let claim = IllumosDevice::claim_interface(device.clone(), 3);
    assert_eq!(
        failure(claim.finish()),
        (ErrorKind::Other, None, "invalid interface number")
    );
    let error = Err(Errno::from_raw_os_error(13));
    let claim = IllumosDevice::claim_interface(device.clone(), 0).opened(error);
    assert_eq!(
        failure(claim.finish()),
        (ErrorKind::Other, Some(13), "opening device fd failed")
    );
    let claim = IllumosDevice::claim_interface(device, 0).opened(Ok(10)).opened(error);
    assert_eq!(
        failure(claim.finish()),
        (ErrorKind::Other, Some(13), "opening device stat fd failed")
    );
}

#[test]
fn claims_without_nodes_fail() {
    let nodes = paths(&["cntrl0", "cntrl0stat", "if0in1"]);
    let device = Arc::new(open_device(nodes, two_endpoints()));
    let claim = IllumosDevice::claim_interface(device, 0).opened(Ok(10));
    assert_eq!(failure(claim.finish()), (ErrorKind::Other, None, "bad device stat"));
    let nodes = paths(&["cntrl0", "cntrl0stat", "if0in1", "if0in1stat"]);
    let device = Arc::new(open_device(nodes, two_endpoints()));
    let claim = IllumosDevice::claim_interface(device, 0).opened(Ok(10)).opened(Ok(11));
    assert_eq!(failure(claim.finish()), (ErrorKind::Other, None, "bad device"));
}

#[test]
fn an_endpoint_is_in_use_once_at_a_time() {
    let mut interface = claimed();
    let endpoint = interface.endpoint(bulk(0x81)).unwrap();
    assert_eq!(endpoint.endpoint_address(), 0x81);
    assert_eq!((endpoint.fd, endpoint.stat_fd), (10, 11));
    assert_eq!(endpoint.max_packet_size, 64);
    assert_eq!(endpoint.pending(), 0);
    assert_eq!(
        failure(interface.endpoint(bulk(0x81))),
        (ErrorKind::Busy, None, "endpoint already in use")
    );
    assert!(interface.endpoint(bulk(0x02)).is_ok());
    interface.release_endpoint(0x81);
    assert!(interface.endpoint(bulk(0x81)).is_ok());
    assert!(interface.endpoint(bulk(0x02)).is_err());
}

#[test]
fn endpoints_are_found_by_address_and_type() {
    let interface = claimed();
    let found = interface.find_endpoint(0x02, TransferType::Bulk).unwrap();
    assert_eq!((found.address, found.direction), (0x02, Direction::Out));
    assert!(interface.find_endpoint(0x02, TransferType::Interrupt).is_none());
    assert!(interface.find_endpoint(0x03, TransferType::Bulk).is_none());
}

#[test]
fn control_transfers_begin_with_their_request() {
    let interface = claimed();
    let request = ControlIn {
        control_type: ControlType::Class,
        recipient: Recipient::Interface,
        request: 1,
        value: 2,
        index: 3,
        length: 4,
    };
    let written = vec![0xa1, 1, 2, 0, 3, 0, 4, 0];
    for transfer in [interface.control_in(request), interface.device.control_in(request)] {
        match transfer.action() {
            ControlAction::Write(bytes) => assert_eq!(bytes, written),
            other => panic!("{:?}", other),
        }
    }
    let request = ControlOut {
        control_type: ControlType::Class,
        recipient: Recipient::Interface,
        request: 1,
        value: 2,
        index: 3,
        data: &[9],
    };
    let written = vec![0x21, 1, 2, 0, 3, 0, 1, 0, 9];
    for transfer in [interface.control_out(request), interface.device.control_out(request)] {
        match transfer.action() {
            ControlAction::Write(bytes) => assert_eq!(bytes, written),
            other => panic!("{:?}", other),
        }
    }
}
