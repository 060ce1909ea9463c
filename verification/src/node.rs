//! The device nodes of an endpoint: what they are called and how they are
//! opened.

use rustix::fs::OFlags;
use vstd::prelude::*;

use crate::descriptor::TransferType;
use crate::host::ask;
use crate::text::{decimal, decimal_is_digits, decimal_is_injective, is_digit, push_decimal};
use crate::usb::{address_shows_direction, Direction, USB_EP_DIR_MASK};

verus! {

/// The flags with which nodes are opened. The flag for closing on `exec` differs
/// from one system to the next.
#[derive(Clone, Copy, Debug)]
pub struct OpenBits {
    pub rdonly: u32,
    pub wronly: u32,
    pub rdwr: u32,
    pub cloexec: u32,
}

impl OpenBits {
    /// The three ways of access are numbered, and closing on `exec` is a flag
    /// apart from them.
    pub open spec fn wf(&self) -> bool {
        &&& self.rdonly == 0
        &&& self.wronly == 1
        &&& self.rdwr == 2
        &&& self.cloexec != 0
        &&& self.cloexec & 3 == 0
    }

    /// Whether these are the flags that `host_open_bits` finds, each in its field.
    pub closed spec fn is_host(self) -> bool {
        call_ensures(host_open_bits, (), self)
    }

    /// The flags of the system that this code runs on.
    pub fn host() -> (bits: OpenBits)
        ensures
            bits.is_host(),
            bits.wf(),
    {
        ask(host_open_bits)
    }

    /// The flags with which a control node and its status node are opened.
    pub open spec fn control(&self) -> u32 {
        self.rdwr | self.cloexec
    }

    /// The flags with which the nodes of an endpoint are opened.
    pub open spec fn endpoint(&self, direction: Direction) -> u32 {
        match direction {
            Direction::In => self.cloexec | self.rdonly,
            Direction::Out => self.cloexec | self.wronly,
        }
    }
}

/// The bits of `RDONLY`, `WRONLY`, `RDWR` and `CLOEXEC` of `rustix::fs::OFlags`.
/// Trusted: on every system that has the error numbers that this library tells
/// apart and the asynchronous I/O of `libc`, the first three are 0, 1 and 2, and
/// the last one is not zero and shares no bit with them. Its value depends on the
/// system and is left open.
#[verifier::external_body]
fn host_open_bits() -> (bits: OpenBits)
    ensures
        bits.wf(),
{
    OpenBits {
        rdonly: OFlags::RDONLY.bits(),
        wronly: OFlags::WRONLY.bits(),
        rdwr: OFlags::RDWR.bits(),
        cloexec: OFlags::CLOEXEC.bits(),
    }
}

/// An endpoint of an interface.
#[derive(Clone, Copy, Debug, PartialEq, Eq, Structural)]
pub struct RawEndpoint {
    pub interface_number: u8,
    pub address: u8,
    pub transfer_type: TransferType,
    pub direction: Direction,
}

/// The part of a node name that gives the direction.
pub open spec fn direction_text(direction: Direction) -> Seq<char> {
    match direction {
        Direction::In => "in"@,
        Direction::Out => "out"@,
    }
}

impl RawEndpoint {
    /// The direction is the one that the address gives.
    pub open spec fn wf(self) -> bool {
        self.direction == Direction::of_address(self.address)
    }

    /// The name of the node for the data of this endpoint: its interface, its
    /// direction, and its address without the direction bit.
    pub open spec fn device_name(self) -> Seq<char> {
        "if"@ + decimal(self.interface_number as nat) + direction_text(self.direction) + decimal(
            (self.address % 128) as nat,
        )
    }

    /// The name of the node for the status of this endpoint.
    pub open spec fn stat_name(self) -> Seq<char> {
        self.device_name() + "stat"@
    }

    /// Builds the name of the node for the data of this endpoint.
    pub fn device_basename(&self) -> (name: String)
        ensures
            name@ == self.device_name(),
    {
        let address: u8 = self.address;
        proof {
            assert(address & !0x80u8 == address % 128) by (bit_vector);
        }
        let mut name = String::from_str("if");
        push_decimal(&mut name, self.interface_number as u32);
        name.append(
            match self.direction {
                Direction::In => "in",
                Direction::Out => "out",
            },
        );
        push_decimal(&mut name, (address & !USB_EP_DIR_MASK) as u32);
        name
    }

    /// Builds the name of the node for the status of this endpoint.
    pub fn stat_basename(&self) -> (name: String)
        ensures
            name@ == self.stat_name(),
    {
        let mut name = self.device_basename();
        name.append("stat");
        name
    }

    /// The flags with which the nodes of this endpoint are opened, given the
    /// flags of a system.
    pub fn open_flags_from(&self, bits: &OpenBits) -> (flags: u32)
        ensures
            flags == bits.endpoint(self.direction),
    {
        bits.cloexec | match self.direction {
            Direction::In => bits.rdonly,
            Direction::Out => bits.wronly,
        }
    }

    /// The flags with which the nodes of this endpoint are opened on the system
    /// that this code runs on, which are those that [`OpenBits::host`] gives.
    pub fn open_flags(&self) -> (flags: u32)
        ensures
            exists|bits: OpenBits|
                #[trigger] call_ensures(OpenBits::host, (), bits) && bits.wf() && flags
                    == bits.endpoint(self.direction),
            flags & 3 == match self.direction {
                Direction::In => 0u32,
                Direction::Out => 1u32,
            },
            exists|bits: OpenBits|
                #[trigger] call_ensures(OpenBits::host, (), bits) && flags == bits.cloexec + match
                self.direction {
                    Direction::In => 0int,
                    Direction::Out => 1int,
                },
    {
        let bits = ask(OpenBits::host);
        proof {
            flags_show_direction(bits, self.direction);
        }
        self.open_flags_from(&bits)
    }
}

/// All nodes are closed on `exec`. Those of an endpoint that receives are opened
/// to read alone, those of one that sends to write alone, and the control nodes
/// to do both.
pub proof fn flags_show_direction(bits: OpenBits, direction: Direction)
    requires
        bits.wf(),
    ensures
        bits.endpoint(direction) & bits.cloexec == bits.cloexec,
        bits.control() & bits.cloexec == bits.cloexec,
        bits.endpoint(Direction::In) == bits.cloexec,
        bits.endpoint(Direction::Out) == bits.cloexec + 1,
        bits.control() == bits.cloexec + 2,
        bits.endpoint(Direction::In) & 3 == bits.rdonly,
        bits.endpoint(Direction::Out) & 3 == bits.wronly,
        bits.control() & 3 == bits.rdwr,
{
    let c = bits.cloexec;
    assert((c | 0) & c == c && (c | 1) & c == c && (2 | c) & c == c) by (bit_vector);
    assert(c & 3 == 0 ==> (c | 0) & 3 == 0 && (c | 1) & 3 == 1 && (2 | c) & 3 == 2)
        by (bit_vector);
    assert(c & 3 == 0 ==> (c | 0) == c && (c | 1) == c + 1 && (2 | c) == c + 2) by (bit_vector);
}

/// The direction text does not begin with a digit, and its two values begin
/// differently.
proof fn direction_text_begins(direction: Direction)
    ensures
        direction_text(direction).len() > 0,
        !is_digit(direction_text(direction)[0]),
        direction_text(direction)[0] == 'i' <==> direction is In,
{
    reveal_strlit("in");
    reveal_strlit("out");
}

/// The end of the interface number in a name shows where the direction begins.
proof fn interface_digits_end(a: RawEndpoint, b: RawEndpoint)
    requires
        a.device_name() == b.device_name(),
    ensures
        decimal(a.interface_number as nat).len() >= decimal(b.interface_number as nat).len(),
{
    reveal_strlit("if");
    let (p, q) = (decimal(a.interface_number as nat), decimal(b.interface_number as nat));
    decimal_is_digits(a.interface_number as nat);
    decimal_is_digits(b.interface_number as nat);
    direction_text_begins(a.direction);
    if p.len() < q.len() {
        let i: int = 2 + p.len() as int;
        assert(a.device_name()[i] == direction_text(a.direction)[0]);
        assert(b.device_name()[i] == q[i - 2]);
    }
}

/// The node of an endpoint tells its interface, its direction and its address
/// without the direction bit. So different endpoints of a device have different
/// nodes.
pub proof fn device_name_identifies_endpoint(a: RawEndpoint, b: RawEndpoint)
    requires
        a.device_name() == b.device_name(),
    ensures
        a.interface_number == b.interface_number,
        a.direction == b.direction,
        a.address % 128 == b.address % 128,
        a.wf() && b.wf() ==> a.address == b.address,
{
    reveal_strlit("if");
    interface_digits_end(a, b);
    interface_digits_end(b, a);
    let (p, q) = (decimal(a.interface_number as nat), decimal(b.interface_number as nat));
    let n: int = p.len() as int;
    let (s, t) = (a.device_name(), b.device_name());
    assert(s.subrange(2, 2 + n) =~= p);
    assert(t.subrange(2, 2 + n) =~= q);
    decimal_is_injective(a.interface_number as nat, b.interface_number as nat);
    direction_text_begins(a.direction);
    direction_text_begins(b.direction);
    assert(s[2 + n] == direction_text(a.direction)[0]);
    assert(t[2 + n] == direction_text(b.direction)[0]);
    assert(a.direction == b.direction);
    let m: int = 2 + n + direction_text(a.direction).len();
    assert(s.skip(m) =~= decimal((a.address % 128) as nat));
    assert(t.skip(m) =~= decimal((b.address % 128) as nat));
    decimal_is_injective((a.address % 128) as nat, (b.address % 128) as nat);
}

/// The status node of an endpoint is never the data node of one, and it tells
/// its interface, its direction and its address without the direction bit. So
/// different endpoints of a device have different status nodes.
pub proof fn stat_name_identifies_endpoint(a: RawEndpoint, b: RawEndpoint)
    ensures
        a.stat_name() != b.device_name(),
        a.stat_name() == b.stat_name() ==> {
            &&& a.interface_number == b.interface_number
            &&& a.direction == b.direction
            &&& a.address % 128 == b.address % 128
            &&& a.wf() && b.wf() ==> a.address == b.address
        },
{
    reveal_strlit("stat");
    decimal_is_digits((b.address % 128) as nat);
    assert(a.stat_name().last() == 't');
    assert(is_digit(b.device_name().last()));
    if a.stat_name() == b.stat_name() {
        let n: int = a.stat_name().len() - 4;
        assert(a.stat_name().take(n) =~= a.device_name());
        assert(b.stat_name().take(n) =~= b.device_name());
        device_name_identifies_endpoint(a, b);
    }
}

/// The nodes of an endpoint are not the control nodes of the device.
pub proof fn endpoint_nodes_are_not_control_nodes(a: RawEndpoint)
    ensures
        a.device_name() != "cntrl0"@,
        a.device_name() != "cntrl0stat"@,
        a.stat_name() != "cntrl0"@,
        a.stat_name() != "cntrl0stat"@,
{
    reveal_strlit("if");
    reveal_strlit("cntrl0");
    reveal_strlit("cntrl0stat");
    assert(a.device_name()[0] == 'i');
    assert(a.stat_name()[0] == 'i');
}

/// The names of the nodes, spelled out: "if", the number of the interface, "in"
/// or "out", and the low seven bits of the address; "stat" follows for the status
/// node.
pub proof fn node_names_spelled_out(a: RawEndpoint)
    ensures
        a.device_name() == "if"@ + decimal(a.interface_number as nat) + (if a.direction is In {
            "in"@
        } else {
            "out"@
        }) + decimal((a.address & 0x7f) as nat),
        a.stat_name() == a.device_name() + "stat"@,
{
    let address = a.address;
    assert(address & 0x7f == address % 128) by (bit_vector);
}

/// An endpoint is as it has to be if it receives just when the highest bit of its
/// address is set.
pub proof fn wf_endpoint_directions(a: RawEndpoint)
    ensures
        a.wf() <==> (a.direction is In <==> a.address & 0x80 != 0),
{
    address_shows_direction(a.address);
}

/// The flags of the system are those that were found, unchanged.
proof fn host_flags_are_found(bits: OpenBits)
    requires
        bits.is_host(),
    ensures
        call_ensures(host_open_bits, (), bits),
{
}

} // verus!
