use illumos_ugen::descriptor::{
    get_configuration, get_descriptor, get_raw, get_raw_string, trim_string, DescriptorType, GetRaw,
    PipeAction,
};
use illumos_ugen::usb::{
    u16_from_le, ControlIn, ControlOut, ControlType, Direction, Recipient, SETUP_PACKET_SIZE,
};

fn packet(read: &GetRaw) -> [u8; 8] {
    match read.action() {
        PipeAction::Write(packet) => packet,
        other => panic!("expected a write, not {:?}", other),
    }
}

fn size(read: &GetRaw) -> usize {
    match read.action() {
        PipeAction::Read(size) => size,
        other => panic!("expected a read, not {:?}", other),
    }
}

#[test]
fn direction_is_the_highest_bit_of_an_address() {
    assert_eq!(Direction::from_address(0x81), Direction::In);
    assert_eq!(Direction::from_address(0x80), Direction::In);
    assert_eq!(Direction::from_address(0x7f), Direction::Out);
    assert_eq!(Direction::from_address(0x02), Direction::Out);
}

#[test]
fn setup_packet_of_a_request_for_data() {
    let request = ControlIn {
        control_type: ControlType::Vendor,
        recipient: Recipient::Interface,
        request: 0x33,
        value: 0x1234,
        index: 0x5678,
        length: 0x0102,
    };
    assert_eq!(request.setup_packet(), [0xc1, 0x33, 0x34, 0x12, 0x78, 0x56, 0x02, 0x01]);
    assert_eq!(request.setup_packet().len(), SETUP_PACKET_SIZE);
}

#[test]
fn setup_packet_of_a_request_with_data() {
    let request = ControlOut {
        control_type: ControlType::Class,
        recipient: Recipient::Other,
        request: 0x09,
        value: 0x0200,
        index: 0x0001,
        data: &[1, 2, 3],
    };
    assert_eq!(request.setup_packet(), [0x23, 0x09, 0x00, 0x02, 0x01, 0x00, 0x03, 0x00]);
}

#[test]
fn setup_packets_tell_requests_apart() {
    let a = ControlIn {
        control_type: ControlType::Standard,
        recipient: Recipient::Endpoint,
        request: 0,
        value: 0x0100,
        index: 0x0001,
        length: 2,
    };
    let b = ControlIn { value: 0x0001, index: 0x0100, ..a };
    assert_ne!(a.setup_packet(), b.setup_packet());
    let out = ControlOut {
        control_type: a.control_type,
        recipient: a.recipient,
        request: a.request,
        value: a.value,
        index: a.index,
        data: &[0, 0],
    };
    assert_ne!(a.setup_packet(), out.setup_packet());
}

#[test]
fn two_bytes_make_a_number() {
    assert_eq!(u16_from_le(0x34, 0x12), 0x1234);
    assert_eq!(u16_from_le(0xff, 0xff), u16::MAX);
}

#[test]
fn descriptor_values() {
    assert_eq!(DescriptorType::Device.to_value(), 0x0100);
    assert_eq!(DescriptorType::Configuration { index: 0 }.to_value(), 0x0200);
    assert_eq!(DescriptorType::Configuration { index: 5 }.to_value(), 0x0205);
    assert_eq!(DescriptorType::String { index: 0xff }.to_value(), 0x03ff);
}

#[test]
fn a_descriptor_is_read_in_two_steps() {
    let read = get_descriptor(DescriptorType::Configuration { index: 0 });
    assert_eq!(packet(&read), [0x80, 0x06, 0x00, 0x02, 0x00, 0x00, 0x09, 0x00]);
    let read = read.written();
    assert_eq!(size(&read), 9);
    let read = read.read(vec![9, 2, 32, 0, 1, 1, 0, 0x80, 50]);
    assert_eq!(packet(&read), [0x80, 0x06, 0x00, 0x02, 0x00, 0x00, 32, 0x00]);
    let read = read.written();
    assert_eq!(size(&read), 32);
    let read = read.read(vec![7; 32]);
    assert!(matches!(read.action(), PipeAction::Finished));
    assert_eq!(read.into_bytes(), vec![7; 32]);
}

#[test]
fn total_length_is_little_endian() {
    let read = get_raw(DescriptorType::Device, 0).written();
    let read = read.read(vec![18, 1, 0x10, 0x02, 0, 0, 0, 64, 0]);
    assert_eq!(packet(&read), [0x80, 0x06, 0x00, 0x01, 0x00, 0x00, 0x10, 0x02]);
    assert_eq!(size(&read.written()), 0x210);
}

#[test]
fn strings_are_asked_for_in_english() {
    let read = get_raw_string(3);
    assert_eq!(packet(&read), [0x80, 0x06, 0x03, 0x03, 0x09, 0x04, 0x09, 0x00]);
    let read = read.written().read(vec![0; 9]);
    assert_eq!(packet(&read), [0x80, 0x06, 0x03, 0x03, 0x09, 0x04, 0x00, 0x00]);
}

#[test]
fn strings_are_cut_to_their_length() {
    assert_eq!(trim_string(vec![4, 3, 65, 0, 9, 9]), vec![4, 3, 65, 0]);
    assert_eq!(trim_string(vec![4, 3]), vec![4, 3]);
    assert_eq!(trim_string(vec![0, 3]), Vec::<u8>::new());
    assert_eq!(trim_string(vec![2, 3]), vec![2, 3]);
}

#[test]
fn active_configuration_request() {
    let request = get_configuration();
    assert_eq!(request.setup_packet(), [0x80, 0x08, 0, 0, 0, 0, 1, 0]);
}
