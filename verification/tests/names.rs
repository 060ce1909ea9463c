use illumos_ugen::descriptor::TransferType;
use illumos_ugen::node::{OpenBits, RawEndpoint};
use illumos_ugen::text::push_decimal;
use illumos_ugen::usb::Direction;
use rustix::fs::OFlags;

fn endpoint(interface_number: u8, address: u8) -> RawEndpoint {
    RawEndpoint {
        interface_number,
        address,
        transfer_type: TransferType::Bulk,
        direction: Direction::from_address(address),
    }
}

#[test]
fn decimal_text_is_appended() {
    let mut text = String::from("n");
    push_decimal(&mut text, 0);
    push_decimal(&mut text, 1234567890);
    assert_eq!(text, "n01234567890");
}

#[test]
fn node_names() {
    assert_eq!(endpoint(0, 0x81).device_basename(), "if0in1");
    assert_eq!(endpoint(0, 0x81).stat_basename(), "if0in1stat");
    assert_eq!(endpoint(1, 0x02).device_basename(), "if1out2");
    assert_eq!(endpoint(1, 0x02).stat_basename(), "if1out2stat");
    assert_eq!(endpoint(255, 0xff).device_basename(), "if255in127");
    assert_eq!(endpoint(10, 0x0f).device_basename(), "if10out15");
}

#[test]
fn names_tell_endpoints_apart() {
    let mut names = Vec::new();
    for interface in [0u8, 1, 10, 11, 110] {
        for address in [0x00u8, 0x01, 0x0b, 0x6e, 0x80, 0x81, 0x8b, 0xee] {
            names.push(endpoint(interface, address).device_basename());
            names.push(endpoint(interface, address).stat_basename());
        }
    }
    names.push(String::from("cntrl0"));
    names.push(String::from("cntrl0stat"));
    let count = names.len();
    names.sort();
    names.dedup();
    assert_eq!(names.len(), count);
}

#[test]
fn host_open_bits_are_those_of_the_system() {
    let bits = OpenBits::host();
    assert_eq!(bits.rdonly, OFlags::RDONLY.bits());
    assert_eq!(bits.wronly, OFlags::WRONLY.bits());
    assert_eq!(bits.rdwr, OFlags::RDWR.bits());
    assert_eq!(bits.cloexec, OFlags::CLOEXEC.bits());
    assert_ne!(bits.cloexec, 0);
    assert_eq!(bits.cloexec & (bits.rdonly | bits.wronly | bits.rdwr), 0);
}

#[test]
fn open_flags_follow_the_direction() {
    let read = (OFlags::CLOEXEC | OFlags::RDONLY).bits();
    let write = (OFlags::CLOEXEC | OFlags::WRONLY).bits();
    assert_eq!(endpoint(0, 0x81).open_flags(), read);
    assert_eq!(endpoint(0, 0x01).open_flags(), write);
    assert_ne!(read, write);
    let bits = OpenBits { rdonly: 0, wronly: 1, rdwr: 2, cloexec: 0x800000 };
    assert_eq!(endpoint(0, 0x81).open_flags_from(&bits), 0x800000);
    assert_eq!(endpoint(0, 0x01).open_flags_from(&bits), 0x800001);
}

#[test]
fn names_show_the_stored_direction() {
    let mut turned = endpoint(3, 0x81);
    turned.direction = Direction::Out;
    assert_eq!(turned.device_basename(), "if3out1");
    assert_eq!(turned.device_basename(), endpoint(3, 0x01).device_basename());
    assert_eq!(turned.stat_basename(), "if3out1stat");
}
