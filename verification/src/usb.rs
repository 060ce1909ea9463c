//! Control requests and the eight bytes in which they are sent.

use vstd::prelude::*;

verus! {

/// The number of bytes of a setup packet.
pub const SETUP_PACKET_SIZE: usize = 8;

/// The bit of an endpoint address that gives its direction.
pub const USB_EP_DIR_MASK: u8 = 0x80;

/// The way data flows, seen from the host.
#[derive(Clone, Copy, Debug, PartialEq, Eq, Structural)]
pub enum Direction {
    /// Host to device.
    Out,
    /// Device to host.
    In,
}

impl Direction {
    /// The direction of the endpoint with the given address: its highest bit.
    pub open spec fn of_address(address: u8) -> Direction {
        if address >= 128 {
            Direction::In
        } else {
            Direction::Out
        }
    }

    /// Reads the direction off an endpoint address.
    pub fn from_address(address: u8) -> (direction: Direction)
        ensures
            direction == Direction::of_address(address),
            direction is In <==> address & 0x80 != 0,
    {
        proof {
            assert((address & 0x80 == 0) == (address < 128)) by (bit_vector);
        }
        if address & USB_EP_DIR_MASK == 0 {
            Direction::Out
        } else {
            Direction::In
        }
    }
}

/// Who defines a control request.
#[derive(Clone, Copy, Debug, PartialEq, Eq, Structural)]
pub enum ControlType {
    Standard,
    Class,
    Vendor,
}

/// What a control request is addressed to.
#[derive(Clone, Copy, Debug, PartialEq, Eq, Structural)]
pub enum Recipient {
    Device,
    Interface,
    Endpoint,
    Other,
}

/// The first byte of a setup packet: the direction in bit 7, the type in bits 6
/// and 5, the recipient in the bits below.
pub open spec fn request_type(
    direction: Direction,
    control_type: ControlType,
    recipient: Recipient,
) -> int {
    let d: int = match direction {
        Direction::Out => 0,
        Direction::In => 1,
    };
    let t: int = match control_type {
        ControlType::Standard => 0,
        ControlType::Class => 1,
        ControlType::Vendor => 2,
    };
    let r: int = match recipient {
        Recipient::Device => 0,
        Recipient::Interface => 1,
        Recipient::Endpoint => 2,
        Recipient::Other => 3,
    };
    128 * d + 32 * t + r
}

/// The two bytes of `n`, the low one first.
pub open spec fn le_bytes(n: u16) -> Seq<u8> {
    seq![(n % 256) as u8, (n / 256) as u8]
}

/// The number whose two bytes are `low` and `high`.
pub open spec fn le_number(low: u8, high: u8) -> int {
    low + 256 * high
}

/// The bytes of a setup packet.
pub open spec fn setup_bytes(
    request_type: int,
    request: u8,
    value: u16,
    index: u16,
    length: u16,
) -> Seq<u8> {
    seq![request_type as u8, request] + le_bytes(value) + le_bytes(index) + le_bytes(length)
}

/// Builds the first byte of a setup packet.
fn pack_request_type(
    direction: Direction,
    control_type: ControlType,
    recipient: Recipient,
) -> (byte: u8)
    ensures
        byte == request_type(direction, control_type, recipient),
{
    let d: u8 = match direction {
        Direction::Out => 0,
        Direction::In => 128,
    };
    let t: u8 = match control_type {
        ControlType::Standard => 0,
        ControlType::Class => 32,
        ControlType::Vendor => 64,
    };
    let r: u8 = match recipient {
        Recipient::Device => 0,
        Recipient::Interface => 1,
        Recipient::Endpoint => 2,
        Recipient::Other => 3,
    };
    d + t + r
}

/// Builds a setup packet.
fn pack_setup(request_type: u8, request: u8, value: u16, index: u16, length: u16) -> (packet: [u8;
    8])
    ensures
        packet@ == setup_bytes(request_type as int, request, value, index, length),
{
    let packet: [u8; 8] = [
        request_type,
        request,
        (value % 256) as u8,
        (value / 256) as u8,
        (index % 256) as u8,
        (index / 256) as u8,
        (length % 256) as u8,
        (length / 256) as u8,
    ];
    assert(packet@ =~= setup_bytes(request_type as int, request, value, index, length));
    packet
}

/// The number whose bytes are `low` and `high`.
pub fn u16_from_le(low: u8, high: u8) -> (n: u16)
    ensures
        n == le_number(low, high),
        n == low + 256 * high,
{
    low as u16 + 256 * (high as u16)
}

/// A control request that asks the device for data.
#[derive(Clone, Copy, Debug, PartialEq, Eq, Structural)]
pub struct ControlIn {
    pub control_type: ControlType,
    pub recipient: Recipient,
    pub request: u8,
    pub value: u16,
    pub index: u16,
    /// How many bytes to ask for.
    pub length: u16,
}

impl ControlIn {
    /// The setup packet of this request.
    pub open spec fn setup(self) -> Seq<u8> {
        setup_bytes(
            request_type(Direction::In, self.control_type, self.recipient),
            self.request,
            self.value,
            self.index,
            self.length,
        )
    }

    /// Builds the setup packet of this request.
    pub fn setup_packet(&self) -> (packet: [u8; 8])
        ensures
            packet@ == self.setup(),
    {
        pack_setup(
            pack_request_type(Direction::In, self.control_type, self.recipient),
            self.request,
            self.value,
            self.index,
            self.length,
        )
    }
}

/// A control request that sends data to the device.
#[derive(Clone, Copy, Debug)]
pub struct ControlOut<'a> {
    pub control_type: ControlType,
    pub recipient: Recipient,
    pub request: u8,
    pub value: u16,
    pub index: u16,
    pub data: &'a [u8],
}

impl<'a> ControlOut<'a> {
    /// The data fits the length field of a setup packet.
    pub open spec fn wf(self) -> bool {
        self.data@.len() <= u16::MAX
    }

    /// The setup packet of this request.
    pub open spec fn setup(self) -> Seq<u8> {
        setup_bytes(
            request_type(Direction::Out, self.control_type, self.recipient),
            self.request,
            self.value,
            self.index,
            self.data@.len() as u16,
        )
    }

    /// Builds the setup packet of this request.
    pub fn setup_packet(&self) -> (packet: [u8; 8])
        requires
            self.wf(),
        ensures
            packet@ == self.setup(),
    {
        pack_setup(
            pack_request_type(Direction::Out, self.control_type, self.recipient),
            self.request,
            self.value,
            self.index,
            self.data.len() as u16,
        )
    }
}

/// A number is what its two bytes make.
pub proof fn le_round_trip(n: u16)
    ensures
        le_bytes(n).len() == 2,
        le_number(le_bytes(n)[0], le_bytes(n)[1]) == n,
{
}

/// A setup packet is eight bytes, and no two requests for data share one.
pub proof fn setup_packet_identifies_request(a: ControlIn, b: ControlIn)
    ensures
        a.setup().len() == SETUP_PACKET_SIZE,
        a.setup() == b.setup() ==> a == b,
{
    let (p, q) = (a.setup(), b.setup());
    le_round_trip(a.value);
    le_round_trip(b.value);
    le_round_trip(a.index);
    le_round_trip(b.index);
    le_round_trip(a.length);
    le_round_trip(b.length);
    assert(p[0] == request_type(Direction::In, a.control_type, a.recipient));
    assert(q[0] == request_type(Direction::In, b.control_type, b.recipient));
    assert(p[1] == a.request && q[1] == b.request);
    assert(p[2] == le_bytes(a.value)[0] && p[3] == le_bytes(a.value)[1]);
    assert(q[2] == le_bytes(b.value)[0] && q[3] == le_bytes(b.value)[1]);
    assert(p[4] == le_bytes(a.index)[0] && p[5] == le_bytes(a.index)[1]);
    assert(q[4] == le_bytes(b.index)[0] && q[5] == le_bytes(b.index)[1]);
    assert(p[6] == le_bytes(a.length)[0] && p[7] == le_bytes(a.length)[1]);
    assert(q[6] == le_bytes(b.length)[0] && q[7] == le_bytes(b.length)[1]);
}

/// A request for data and a request that sends data never share a setup packet.
pub proof fn setup_packet_shows_direction(a: ControlIn, b: ControlOut)
    ensures
        a.setup() != b.setup(),
{
    assert(a.setup()[0] == request_type(Direction::In, a.control_type, a.recipient));
    assert(b.setup()[0] == request_type(Direction::Out, b.control_type, b.recipient));
}

/// An endpoint receives if the highest bit of its address is set, and sends
/// otherwise.
pub proof fn address_shows_direction(address: u8)
    ensures
        Direction::of_address(address) is In <==> address & 0x80 != 0,
        Direction::of_address(address) is Out <==> address & 0x80 == 0,
{
    assert((address & 0x80 == 0) == (address < 128)) by (bit_vector);
}

/// The low byte of a number comes first, and weighs one; the high byte weighs
/// 256.
pub proof fn low_byte_comes_first(n: u16, low: u8, high: u8)
    ensures
        le_bytes(n)[0] + 256 * le_bytes(n)[1] == n,
        le_number(low, high) == low + 256 * high,
{
}

/// The fields of a byte that is put together from them.
proof fn byte_fields(b: u8, d: u8, t: u8, r: u8)
    requires
        d <= 1,
        t <= 2,
        r <= 3,
        b == 128 * d + 32 * t + r,
    ensures
        b & 0x1f == r,
        (b >> 5) & 3 == t,
        b & 0x80 != 0 <==> d == 1,
{
    assert(b & 0x1f == r && (b >> 5) & 3 == t && (b & 0x80 != 0) == (d == 1)) by (bit_vector)
        requires
            d <= 1,
            t <= 2,
            r <= 3,
            b == 128 * d + 32 * t + r,
    ;
}

/// The first byte of a setup packet: bits 0 to 4 number the recipient, bits 5 and
/// 6 the type, and bit 7 is set for requests that ask for data.
pub proof fn request_type_fields(
    direction: Direction,
    control_type: ControlType,
    recipient: Recipient,
)
    ensures
        ({
            let byte = request_type(direction, control_type, recipient);
            &&& 0 <= byte <= 255
            &&& (byte as u8) & 0x1f == match recipient {
                Recipient::Device => 0u8,
                Recipient::Interface => 1u8,
                Recipient::Endpoint => 2u8,
                Recipient::Other => 3u8,
            }
            &&& ((byte as u8) >> 5) & 3 == match control_type {
                ControlType::Standard => 0u8,
                ControlType::Class => 1u8,
                ControlType::Vendor => 2u8,
            }
            &&& (byte as u8) & 0x80 != 0 <==> direction is In
        }),
{
    let d: u8 = if direction is In {
        1
    } else {
        0
    };
    let t: u8 = if control_type is Standard {
        0
    } else if control_type is Class {
        1
    } else {
        2
    };
    let r: u8 = if recipient is Device {
        0
    } else if recipient is Interface {
        1
    } else if recipient is Endpoint {
        2
    } else {
        3
    };
    byte_fields(request_type(direction, control_type, recipient) as u8, d, t, r);
}

/// The setup packet of a request for data, byte by byte: recipient, type and
/// direction; the request; then value, index and length, each with its low byte
/// first.
pub proof fn setup_packet_asks_for_data(a: ControlIn)
    ensures
        a.setup().len() == 8,
        a.setup()[0] & 0x1f == match a.recipient {
            Recipient::Device => 0u8,
            Recipient::Interface => 1u8,
            Recipient::Endpoint => 2u8,
            Recipient::Other => 3u8,
        },
        (a.setup()[0] >> 5) & 3 == match a.control_type {
            ControlType::Standard => 0u8,
            ControlType::Class => 1u8,
            ControlType::Vendor => 2u8,
        },
        a.setup()[0] & 0x80 != 0,
        a.setup()[1] == a.request,
        a.setup()[2] + 256 * a.setup()[3] == a.value,
        a.setup()[4] + 256 * a.setup()[5] == a.index,
        a.setup()[6] + 256 * a.setup()[7] == a.length,
{
    request_type_fields(Direction::In, a.control_type, a.recipient);
}

/// The setup packet of a request that sends data, byte by byte: recipient, type
/// and direction; the request; then value, index and the length of the data, each
/// with its low byte first.
pub proof fn setup_packet_announces_data(a: ControlOut)
    requires
        a.data@.len() <= u16::MAX,
    ensures
        a.wf(),
        a.setup().len() == 8,
        a.setup()[0] & 0x1f == match a.recipient {
            Recipient::Device => 0u8,
            Recipient::Interface => 1u8,
            Recipient::Endpoint => 2u8,
            Recipient::Other => 3u8,
        },
        (a.setup()[0] >> 5) & 3 == match a.control_type {
            ControlType::Standard => 0u8,
            ControlType::Class => 1u8,
            ControlType::Vendor => 2u8,
        },
        a.setup()[0] & 0x80 == 0,
        a.setup()[1] == a.request,
        a.setup()[2] + 256 * a.setup()[3] == a.value,
        a.setup()[4] + 256 * a.setup()[5] == a.index,
        a.setup()[6] + 256 * a.setup()[7] == a.data@.len(),
{
    request_type_fields(Direction::Out, a.control_type, a.recipient);
}

} // verus!
