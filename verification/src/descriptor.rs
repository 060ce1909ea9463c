//! Descriptors, and the requests that read them from a device.

use vstd::prelude::*;

use crate::usb::{
    le_number, u16_from_le, ControlIn, ControlType, Direction, Recipient,
};

verus! {

/// The number of bytes of a configuration descriptor without what follows it.
pub const USB_CFG_DESCR_SIZE: u16 = 9;

/// The request that asks for a descriptor.
pub const USB_REQ_GET_DESCR: u8 = 0x06;

/// The request that asks for the active configuration.
pub const USB_REQ_GET_CFG: u8 = 0x08;

/// The language identifier of English as used in the United States.
pub const US_ENGLISH: u16 = 0x0409;

/// How an endpoint transfers data.
#[derive(Clone, Copy, Debug, PartialEq, Eq, Structural)]
pub enum TransferType {
    Control,
    Isochronous,
    Bulk,
    Interrupt,
}

/// What an endpoint descriptor says.
#[derive(Clone, Copy, Debug, PartialEq, Eq, Structural)]
pub struct EndpointDescriptor {
    pub address: u8,
    pub transfer_type: TransferType,
    pub max_packet_size: usize,
}

impl EndpointDescriptor {
    /// The direction of the endpoint.
    pub fn direction(&self) -> (direction: Direction)
        ensures
            direction == Direction::of_address(self.address),
    {
        Direction::from_address(self.address)
    }
}

/// What the first alternate setting of an interface says.
#[derive(Debug)]
pub struct InterfaceDescriptor {
    pub interface_number: u8,
    pub endpoints: Vec<EndpointDescriptor>,
}

/// The descriptor that a request asks for.
#[derive(Clone, Copy, Debug, PartialEq, Eq, Structural)]
pub enum DescriptorType {
    Device,
    Configuration { index: u8 },
    String { index: u8 },
}

impl DescriptorType {
    /// The value field of the request: the type of the descriptor in the high
    /// byte, its index in the low one.
    pub open spec fn value(self) -> int {
        match self {
            DescriptorType::Device => 0x100,
            DescriptorType::Configuration { index } => 0x200 + index,
            DescriptorType::String { index } => 0x300 + index,
        }
    }

    /// Builds the value field of the request.
    pub fn to_value(&self) -> (value: u16)
        ensures
            value == self.value(),
            value / 256 == match self {
                DescriptorType::Device => 1u16,
                DescriptorType::Configuration { .. } => 2u16,
                DescriptorType::String { .. } => 3u16,
            },
            value % 256 == match self {
                DescriptorType::Device => 0u16,
                DescriptorType::Configuration { index } => *index as u16,
                DescriptorType::String { index } => *index as u16,
            },
    {
        let high_byte: u16 = match self {
            DescriptorType::Device => 1,
            DescriptorType::Configuration { .. } => 2,
            DescriptorType::String { .. } => 3,
        };
        let low_byte: u16 = match self {
            DescriptorType::Device => 0,
            DescriptorType::Configuration { index } => *index as u16,
            DescriptorType::String { index } => *index as u16,
        };
        proof {
            assert(high_byte <= 3 && low_byte < 256 ==> (high_byte << 8 | low_byte) == 256 * high_byte
                + low_byte) by (bit_vector);
        }
        high_byte << 8 | low_byte
    }
}

/// What to do next on the control pipe of a device.
#[derive(Debug)]
pub enum PipeAction {
    /// Write this setup packet.
    Write([u8; 8]),
    /// Read into a zeroed buffer of this many bytes.
    Read(usize),
    /// Nothing: the exchange is over.
    Finished,
}

/// How far the reading of a descriptor has come.
#[derive(Debug)]
pub enum GetRawStage {
    WriteHeader,
    ReadHeader,
    WriteBody,
    ReadBody,
    Finished(Vec<u8>),
}

/// The reading of a descriptor. It asks for the first nine bytes, takes the
/// total length from the third and fourth of them, and then asks for that many.
#[derive(Debug)]
pub struct GetRaw {
    pub request: ControlIn,
    pub stage: GetRawStage,
}

/// The total length that the first bytes of a descriptor give.
pub open spec fn total_length(header: Seq<u8>) -> int {
    le_number(header[2], header[3])
}

impl GetRaw {
    /// The start of reading a descriptor.
    pub open spec fn started(descriptor_type: DescriptorType, index: u16) -> GetRaw {
        GetRaw {
            request: ControlIn {
                control_type: ControlType::Standard,
                recipient: Recipient::Device,
                request: USB_REQ_GET_DESCR,
                value: descriptor_type.value() as u16,
                index,
                length: USB_CFG_DESCR_SIZE,
            },
            stage: GetRawStage::WriteHeader,
        }
    }

    /// How many bytes the next read is for.
    pub open spec fn read_size(&self) -> Option<usize> {
        match self.stage {
            GetRawStage::ReadHeader => Some(USB_CFG_DESCR_SIZE as usize),
            GetRawStage::ReadBody => Some(self.request.length as usize),
            _ => None,
        }
    }

    /// Whether a setup packet has to be written next.
    pub open spec fn wants_write(&self) -> bool {
        self.stage is WriteHeader || self.stage is WriteBody
    }

    /// What follows once the setup packet has been written.
    pub open spec fn after_write(self) -> GetRaw {
        GetRaw {
            stage: match self.stage {
                GetRawStage::WriteHeader => GetRawStage::ReadHeader,
                GetRawStage::WriteBody => GetRawStage::ReadBody,
                other => other,
            },
            ..self
        }
    }

    /// What follows once `bytes` have been read.
    pub open spec fn after_read(self, bytes: Vec<u8>) -> GetRaw {
        match self.stage {
            GetRawStage::ReadHeader => GetRaw {
                request: ControlIn { length: total_length(bytes@) as u16, ..self.request },
                stage: GetRawStage::WriteBody,
            },
            GetRawStage::ReadBody => GetRaw { stage: GetRawStage::Finished(bytes), ..self },
            _ => self,
        }
    }

    /// What to do next.
    pub fn action(&self) -> (action: PipeAction)
        ensures
            match action {
                PipeAction::Write(packet) => self.wants_write() && packet@ == self.request.setup(),
                PipeAction::Read(size) => self.read_size() == Some(size),
                PipeAction::Finished => self.stage is Finished,
            },
    {
        match self.stage {
            GetRawStage::WriteHeader => PipeAction::Write(self.request.setup_packet()),
            GetRawStage::ReadHeader => PipeAction::Read(USB_CFG_DESCR_SIZE as usize),
            GetRawStage::WriteBody => PipeAction::Write(self.request.setup_packet()),
            GetRawStage::ReadBody => PipeAction::Read(self.request.length as usize),
            GetRawStage::Finished(_) => PipeAction::Finished,
        }
    }

    /// The setup packet has been written.
    pub fn written(self) -> (next: GetRaw)
        requires
            self.wants_write(),
        ensures
            next == self.after_write(),
    {
        let stage = match self.stage {
            GetRawStage::WriteHeader => GetRawStage::ReadHeader,
            _ => GetRawStage::ReadBody,
        };
        GetRaw { request: self.request, stage }
    }

    /// The buffer has been read into and now holds `bytes`.
    pub fn read(self, bytes: Vec<u8>) -> (next: GetRaw)
        requires
            self.read_size() == Some(bytes@.len() as usize),
        ensures
            next == self.after_read(bytes),
    {
        match self.stage {
            GetRawStage::ReadHeader => {
                let mut request = self.request;
                request.length = u16_from_le(bytes[2], bytes[3]);
                GetRaw { request, stage: GetRawStage::WriteBody }
            },
            _ => GetRaw { request: self.request, stage: GetRawStage::Finished(bytes) },
        }
    }

    /// The bytes of the descriptor.
    pub fn into_bytes(self) -> (bytes: Vec<u8>)
        requires
            self.stage is Finished,
        ensures
            self.stage == GetRawStage::Finished(bytes),
    {
        match self.stage {
            GetRawStage::Finished(bytes) => bytes,
            _ => Vec::new(),
        }
    }
}

/// Starts reading a descriptor. For a string, `index` is its language.
pub fn get_raw(descriptor_type: DescriptorType, index: u16) -> (read: GetRaw)
    ensures
        read == GetRaw::started(descriptor_type, index),
{
    GetRaw {
        request: ControlIn {
            control_type: ControlType::Standard,
            recipient: Recipient::Device,
            request: USB_REQ_GET_DESCR,
            value: descriptor_type.to_value(),
            index,
            length: USB_CFG_DESCR_SIZE,
        },
        stage: GetRawStage::WriteHeader,
    }
}

/// Starts reading a descriptor that has no language.
pub fn get_descriptor(descriptor_type: DescriptorType) -> (read: GetRaw)
    ensures
        read == GetRaw::started(descriptor_type, 0),
{
    get_raw(descriptor_type, 0)
}

/// Starts reading the string descriptor with the given index.
pub fn get_raw_string(index: u8) -> (read: GetRaw)
    ensures
        read == GetRaw::started(DescriptorType::String { index }, US_ENGLISH),
        read.request.value == 0x300 + index,
        read.request.index == 0x409,
{
    get_raw(DescriptorType::String { index }, US_ENGLISH)
}

/// Cuts a string descriptor to the length that its first byte gives.
pub fn trim_string(bytes: Vec<u8>) -> (text: Vec<u8>)
    requires
        bytes@.len() > 0,
    ensures
        bytes@[0] <= bytes@.len() ==> text@ == bytes@.take(bytes@[0] as int),
        bytes@[0] > bytes@.len() ==> text@ == bytes@,
{
    let mut text = bytes;
    let length: usize = text[0] as usize;
    text.truncate(length);
    text
}

/// The request that asks for the active configuration, to be followed by the
/// read of one byte, which is its value.
pub fn get_configuration() -> (request: ControlIn)
    ensures
        request == (ControlIn {
            control_type: ControlType::Standard,
            recipient: Recipient::Device,
            request: USB_REQ_GET_CFG,
            value: 0,
            index: 0,
            length: 1,
        }),
        request.request == 8,
{
    ControlIn {
        control_type: ControlType::Standard,
        recipient: Recipient::Device,
        request: USB_REQ_GET_CFG,
        value: 0,
        index: 0,
        length: 1,
    }
}

/// No two descriptors have the same value field, and it fits its 16 bits.
pub proof fn value_identifies_descriptor(a: DescriptorType, b: DescriptorType)
    ensures
        0 <= a.value() <= u16::MAX,
        a.value() == b.value() ==> a == b,
{
}

/// The reading of a descriptor takes two requests that differ in their length
/// alone: nine bytes for the first, for the second what the reply to the first
/// gives as total length. It returns the reply to the second.
pub proof fn descriptor_is_read_in_two_steps(
    descriptor_type: DescriptorType,
    index: u16,
    header: Vec<u8>,
    body: Vec<u8>,
)
    requires
        header@.len() == USB_CFG_DESCR_SIZE,
        body@.len() == header@[2] + 256 * header@[3],
    ensures
        ({
            let first = GetRaw::started(descriptor_type, index);
            let second = first.after_write().after_read(header);
            let last = second.after_write().after_read(body);
            &&& first.wants_write()
            &&& first.after_write().read_size() == Some(9usize)
            &&& !first.after_write().wants_write()
            &&& second.wants_write()
            &&& second.request == (ControlIn { length: body@.len() as u16, ..first.request })
            &&& second.request.length == header@[2] + 256 * header@[3]
            &&& second.after_write().read_size() == Some(body@.len() as usize)
            &&& !second.after_write().wants_write()
            &&& second.after_write().request == second.request
            &&& last.stage == GetRawStage::Finished(body)
        }),
{
}

/// The value field of a request for a descriptor: the high byte is 1 for the
/// device, 2 for a configuration and 3 for a string, and the low byte its index.
pub proof fn value_fields(descriptor_type: DescriptorType)
    ensures
        descriptor_type.value() / 256 == match descriptor_type {
            DescriptorType::Device => 1int,
            DescriptorType::Configuration { .. } => 2int,
            DescriptorType::String { .. } => 3int,
        },
        descriptor_type.value() % 256 == match descriptor_type {
            DescriptorType::Device => 0int,
            DescriptorType::Configuration { index } => index as int,
            DescriptorType::String { index } => index as int,
        },
{
}

/// The first request for a descriptor is the standard one of the device with the
/// number 6, for nine bytes. It names the descriptor in its value field, and
/// begins with a write.
pub proof fn descriptor_request_fields(descriptor_type: DescriptorType, index: u16)
    ensures
        ({
            let first = GetRaw::started(descriptor_type, index);
            &&& first.request.control_type is Standard
            &&& first.request.recipient is Device
            &&& first.request.request == 6
            &&& first.request.value / 256 == match descriptor_type {
                DescriptorType::Device => 1u16,
                DescriptorType::Configuration { .. } => 2u16,
                DescriptorType::String { .. } => 3u16,
            }
            &&& first.request.value % 256 == match descriptor_type {
                DescriptorType::Device => 0u16,
                DescriptorType::Configuration { index } => index as u16,
                DescriptorType::String { index } => index as u16,
            }
            &&& first.request.index == index
            &&& first.request.length == 9
            &&& first.wants_write()
            &&& first.read_size() is None
        }),
{
}

/// The total length stands in the third and fourth byte, the low byte first.
pub proof fn total_length_bytes(header: Seq<u8>)
    ensures
        total_length(header) == header[2] + 256 * header[3],
{
}

} // verus!
