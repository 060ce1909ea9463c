//! A control transfer, step by step: write the request, read the answer if one
//! is expected, and ask the status node where the driver says so.

use vstd::prelude::*;

use crate::buffer::{written_over, zeros, BufferView};
use crate::device::IllumosDevice;
use crate::errno::Errno;
use crate::interface::IllumosInterface;
use crate::transfer::{
    handle_errno_result, Outcome, PartsView, StatRead, TransferData, TransferType, TransferView,
    UsbResult,
};
use crate::usb::{ControlIn, ControlOut, SETUP_PACKET_SIZE};

verus! {

/// How far a control transfer has come.
#[derive(Clone, Copy, Debug, PartialEq, Eq, Structural)]
pub enum ControlPhase {
    /// The request is to be written.
    Write,
    /// The write failed, and the status node is to be asked why.
    WriteStat,
    /// The answer is to be read.
    Read,
    /// The read failed, and the status node is to be asked why.
    ReadStat,
    /// The transfer has ended.
    Done,
}

/// What to do next for a control transfer.
#[derive(Debug)]
pub enum ControlAction {
    /// Write these bytes to the control node.
    Write(Vec<u8>),
    /// Read up to this many bytes from the control node.
    Read(usize),
    /// Read four bytes from the status node.
    ReadStat,
    /// Nothing: the transfer has ended.
    Done,
}

/// A control transfer under way.
#[derive(Debug)]
pub struct ControlTransfer {
    pub data: TransferData,
    pub phase: ControlPhase,
}

/// A [`ControlTransfer`] as a mathematical value.
pub ghost struct ControlView {
    pub data: TransferView,
    pub phase: ControlPhase,
}

impl View for ControlTransfer {
    type V = ControlView;

    open spec fn view(&self) -> ControlView {
        ControlView { data: self.data@, phase: self.phase }
    }
}

/// Whether a transfer of this kind belongs on the control pipe.
pub open spec fn is_control(kind: TransferType) -> bool {
    kind is ControlOut || kind is ControlIn
}

impl ControlView {
    /// It is a control transfer, and only one that expects an answer reads.
    pub open spec fn wf(self) -> bool {
        &&& self.data.wf()
        &&& self.data.transfer is Some
        &&& is_control(self.kind())
        &&& self.phase is Read || self.phase is ReadStat ==> self.kind() is ControlIn
    }

    /// The beginning of a transfer that asks the device for data: the setup
    /// packet is written, and the memory behind it is for the answer.
    pub open spec fn request_in(data: ControlIn) -> ControlView {
        ControlView {
            data: TransferView::fresh(
                TransferType::ControlIn { data_in_len: data.length as u32 },
                BufferView {
                    memory: data.setup() + zeros(data.length as nat),
                    len: SETUP_PACKET_SIZE as u32,
                    requested_len: (SETUP_PACKET_SIZE + data.length) as u32,
                },
            ),
            phase: ControlPhase::Write,
        }
    }

    /// The beginning of a transfer that sends data to the device: the setup
    /// packet and the data behind it are written at once.
    pub open spec fn request_out(data: ControlOut) -> ControlView {
        ControlView {
            data: TransferView::fresh(
                TransferType::ControlOut,
                BufferView {
                    memory: data.setup() + data.data@,
                    len: (SETUP_PACKET_SIZE + data.data@.len()) as u32,
                    requested_len: (SETUP_PACKET_SIZE + data.data@.len()) as u32,
                },
            ),
            phase: ControlPhase::Write,
        }
    }

    /// The kind of the transfer.
    pub open spec fn kind(self) -> TransferType {
        self.data.transfer->0.kind
    }

    /// How many bytes are expected as an answer.
    pub open spec fn data_in_len(self) -> u32 {
        match self.kind() {
            TransferType::ControlIn { data_in_len } => data_in_len,
            _ => 0,
        }
    }

    /// The transfer, ended with `status`.
    pub open spec fn ended(self, status: Result<usize, UsbResult>) -> ControlView {
        ControlView {
            data: TransferView { status: Some(status), ..self.data },
            phase: ControlPhase::Done,
        }
    }

    /// The transfer with `bytes` in its memory behind the setup packet.
    pub open spec fn answered(self, bytes: Seq<u8>) -> ControlView {
        let parts = self.data.transfer->0;
        ControlView {
            data: TransferView {
                transfer: Some(
                    PartsView {
                        buffer: BufferView {
                            memory: written_over(
                                parts.buffer.memory,
                                SETUP_PACKET_SIZE as int,
                                bytes,
                            ),
                            ..parts.buffer
                        },
                        ..parts
                    },
                ),
                ..self.data
            },
            ..self
        }
    }

    /// What follows once the write gave `result`.
    pub open spec fn after_write(self, result: Result<usize, Errno>) -> ControlView {
        match result {
            Ok(n) => if self.kind() is ControlIn {
                ControlView { phase: ControlPhase::Read, ..self }
            } else {
                self.ended(Ok(n))
            },
            Err(errno) => if errno.raw == -1 {
                ControlView { phase: ControlPhase::WriteStat, ..self }
            } else {
                self.ended(Err(UsbResult::Errno(errno)))
            },
        }
    }

    /// What follows once the read gave `result` and left `bytes` in its memory.
    pub open spec fn after_read(self, result: Result<usize, Errno>, bytes: Seq<u8>) -> ControlView {
        match result {
            Ok(n) => self.answered(bytes.take(n as int)).ended(Ok(n)),
            Err(errno) => if errno.raw == -1 {
                ControlView { phase: ControlPhase::ReadStat, ..self }
            } else {
                self.ended(Err(UsbResult::Errno(errno)))
            },
        }
    }

    /// What follows once the status node gave `stat`.
    pub open spec fn after_stat(self, stat: StatRead) -> ControlView {
        self.ended(Err(stat.reported()))
    }
}

impl ControlTransfer {
    /// Begins a control transfer.
    pub fn new(data: TransferData) -> (transfer: ControlTransfer)
        requires
            data@.wf(),
            data@.transfer matches Some(parts) && is_control(parts.kind),
        ensures
            transfer@ == (ControlView { data: data@, phase: ControlPhase::Write }),
            transfer@.wf(),
    {
        ControlTransfer { data, phase: ControlPhase::Write }
    }

    /// What to do next.
    pub fn action(&self) -> (action: ControlAction)
        requires
            self@.wf(),
        ensures
            match action {
                ControlAction::Write(bytes) => self.phase is Write && bytes@
                    == self@.data.transfer->0.buffer.data(),
                ControlAction::Read(size) => self.phase is Read && size == self@.data_in_len(),
                ControlAction::ReadStat => self.phase is WriteStat || self.phase is ReadStat,
                ControlAction::Done => self.phase is Done,
            },
    {
        match self.phase {
            ControlPhase::Write => match &self.data.transfer {
                Some(parts) => ControlAction::Write(parts.buffer.prefix(parts.buffer.len as usize)),
                None => ControlAction::Done,
            },
            ControlPhase::WriteStat => ControlAction::ReadStat,
            ControlPhase::Read => match &self.data.transfer {
                Some(parts) => match parts.kind {
                    TransferType::ControlIn { data_in_len } => ControlAction::Read(
                        data_in_len as usize,
                    ),
                    _ => ControlAction::Done,
                },
                None => ControlAction::Done,
            },
            ControlPhase::ReadStat => ControlAction::ReadStat,
            ControlPhase::Done => ControlAction::Done,
        }
    }

    /// The write gave `result`.
    pub fn written(&mut self, result: Result<usize, Errno>)
        requires
            old(self)@.wf(),
            old(self).phase is Write,
        ensures
            final(self)@ == old(self)@.after_write(result),
            final(self)@.wf(),
    {
        let answer_expected: bool = match &self.data.transfer {
            Some(parts) => match parts.kind {
                TransferType::ControlIn { .. } => true,
                _ => false,
            },
            None => false,
        };
        match handle_errno_result(result) {
            Outcome::CheckStat => {
                self.phase = ControlPhase::WriteStat;
            },
            Outcome::Settled(status) => if status.is_ok() && answer_expected {
                self.phase = ControlPhase::Read;
            } else {
                self.data.status = Some(status);
                self.phase = ControlPhase::Done;
            },
        }
    }

    /// The read gave `result` and left `bytes` in the memory that it was for.
    pub fn read(&mut self, result: Result<usize, Errno>, bytes: &[u8])
        requires
            old(self)@.wf(),
            old(self).phase is Read,
            bytes@.len() == old(self)@.data_in_len(),
            result matches Ok(n) ==> n <= bytes@.len(),
        ensures
            final(self)@ == old(self)@.after_read(result, bytes@),
            final(self)@.wf(),
    {
        match handle_errno_result(result) {
            Outcome::CheckStat => {
                self.phase = ControlPhase::ReadStat;
            },
            Outcome::Settled(status) => {
                if let Ok(n) = status {
                    if let Some(parts) = &mut self.data.transfer {
                        let answer = vstd::slice::slice_subrange(bytes, 0, n);
                        assert(answer@ =~= bytes@.take(n as int));
                        parts.buffer.write_at(SETUP_PACKET_SIZE, answer);
                    }
                }
                self.data.status = Some(status);
                self.phase = ControlPhase::Done;
            },
        }
    }

    /// The status node gave `stat`.
    pub fn stat_read(&mut self, stat: StatRead)
        requires
            old(self)@.wf(),
            old(self).phase is WriteStat || old(self).phase is ReadStat,
        ensures
            final(self)@ == old(self)@.after_stat(stat),
            final(self)@.wf(),
    {
        self.data.status = Some(Err(stat.to_usb_result()));
        self.phase = ControlPhase::Done;
    }

    /// The transfer, once it has ended.
    pub fn into_data(self) -> (data: TransferData)
        ensures
            data@ == self@.data,
    {
        self.data
    }
}

impl IllumosDevice {
    /// Begins a control transfer that asks the device for data.
    pub fn control_in(&self, data: ControlIn) -> (transfer: ControlTransfer)
        ensures
            transfer@ == ControlView::request_in(data),
            transfer@.wf(),
    {
        ControlTransfer::new(TransferData::new_control_in(data))
    }

    /// Begins a control transfer that sends data to the device.
    pub fn control_out(&self, data: ControlOut) -> (transfer: ControlTransfer)
        requires
            data.wf(),
        ensures
            transfer@ == ControlView::request_out(data),
            transfer@.wf(),
    {
        ControlTransfer::new(TransferData::new_control_out(data))
    }
}

impl IllumosInterface {
    /// Begins a control transfer that asks the device for data.
    pub fn control_in(&self, data: ControlIn) -> (transfer: ControlTransfer)
        ensures
            transfer@ == ControlView::request_in(data),
            transfer@.wf(),
    {
        self.device.control_in(data)
    }

    /// Begins a control transfer that sends data to the device.
    pub fn control_out(&self, data: ControlOut) -> (transfer: ControlTransfer)
        requires
            data.wf(),
        ensures
            transfer@ == ControlView::request_out(data),
            transfer@.wf(),
    {
        self.device.control_out(data)
    }
}

/// A control transfer ends after at most three steps, and a write that failed is
/// not followed by a read.
pub proof fn control_transfer_ends(
    start: ControlView,
    written: Result<usize, Errno>,
    read: Result<usize, Errno>,
    bytes: Seq<u8>,
    stat: StatRead,
)
    requires
        start.wf(),
        start.phase is Write,
    ensures
        written is Err ==> start.after_write(written).phase is Done || start.after_write(
            written,
        ).phase is WriteStat,
        start.after_write(written).phase is WriteStat ==> start.after_write(written).after_stat(
            stat,
        ).phase is Done,
        start.after_write(written).phase is Read ==> {
            let next = start.after_write(written).after_read(read, bytes);
            next.phase is Done || next.phase is ReadStat && next.after_stat(stat).phase is Done
        },
{
}

/// A request for data writes its setup packet. The answer then stands in the
/// memory right behind the setup packet, which stays as it was written.
pub proof fn answer_stands_behind_request(
    request: ControlIn,
    written: usize,
    n: usize,
    bytes: Seq<u8>,
)
    requires
        bytes.len() == request.length,
        n <= bytes.len(),
    ensures
        ({
            let start = ControlView::request_in(request);
            let asked = start.after_write(Ok(written));
            let end = start.after_write(Ok(written)).after_read(Ok(n), bytes);
            let memory = end.data.transfer->0.buffer.memory;
            &&& start.phase is Write
            &&& start.wf()
            &&& start.data.transfer->0.buffer.memory.len() == SETUP_PACKET_SIZE + request.length
            &&& start.data.transfer->0.buffer.requested_len == SETUP_PACKET_SIZE + request.length
            &&& asked.phase is Read
            &&& asked.data_in_len() == request.length
            &&& asked.data == start.data
            &&& start.data.transfer->0.buffer.data() == request.setup()
            &&& end.phase is Done
            &&& end.data.status == Some(Ok::<usize, UsbResult>(n))
            &&& end.data.actual_len() == n
            &&& end.kind() == start.kind()
            &&& end.data.transfer->0.buffer.len == SETUP_PACKET_SIZE
            &&& end.data.transfer->0.buffer.requested_len == SETUP_PACKET_SIZE + request.length
            &&& memory == request.setup() + bytes.take(n as int) + zeros(
                (request.length - n) as nat,
            )
        }),
{
    let start = ControlView::request_in(request);
    let end = start.after_write(Ok(written)).after_read(Ok(n), bytes);
    let memory = end.data.transfer->0.buffer.memory;
    assert(request.setup().len() == SETUP_PACKET_SIZE);
    assert(start.data.transfer->0.buffer.data() =~= request.setup());
    assert(memory =~= request.setup() + bytes.take(n as int) + zeros((request.length - n) as nat));
}

/// A request that sends data writes its setup packet with the data behind it,
/// and ends with the outcome of that write.
pub proof fn request_is_sent_whole(request: ControlOut, written: Result<usize, Errno>, stat: StatRead)
    requires
        request.wf(),
    ensures
        ({
            let start = ControlView::request_out(request);
            let next = start.after_write(written);
            &&& start.phase is Write
            &&& start.wf()
            &&& start.data.transfer->0.buffer.data() == request.setup() + request.data@
            &&& start.data.transfer->0.buffer.requested_len == SETUP_PACKET_SIZE
                + request.data@.len()
            &&& next.data.transfer == start.data.transfer
            &&& match written {
                Ok(n) => next.phase is Done && next.data.status == Some(Ok::<usize, UsbResult>(n)),
                Err(errno) if errno.raw == -1 => {
                    &&& next.phase is WriteStat
                    &&& next.after_stat(stat).phase is Done
                    &&& next.after_stat(stat).data.status == Some(
                        Err::<usize, UsbResult>(stat.reported()),
                    )
                    &&& next.after_stat(stat).data.transfer == start.data.transfer
                },
                Err(errno) => next.phase is Done && next.data.status == Some(
                    Err::<usize, UsbResult>(UsbResult::Errno(errno)),
                ),
            }
        }),
{
    let start = ControlView::request_out(request);
    assert(request.setup().len() == SETUP_PACKET_SIZE);
    assert(start.data.transfer->0.buffer.data() =~= request.setup() + request.data@);
}

/// A request for data that fails, in its write or in its read, ends with the
/// error number of what failed, or with what the status node reports if that
/// number is -1. Its memory stays as it was.
pub proof fn failed_request_is_reported(
    request: ControlIn,
    written: usize,
    errno: Errno,
    bytes: Seq<u8>,
    stat: StatRead,
)
    ensures
        ({
            let start = ControlView::request_in(request);
            let unwritten = start.after_write(Err(errno));
            let asked = start.after_write(Ok(written));
            let unread = asked.after_read(Err(errno), bytes);
            &&& unwritten.data.transfer == start.data.transfer
            &&& unread.data.transfer == start.data.transfer
            &&& if errno.raw == -1 {
                &&& unwritten.phase is WriteStat
                &&& unread.phase is ReadStat
                &&& unwritten.data.status is None
                &&& unread.data.status is None
                &&& unwritten.after_stat(stat).phase is Done
                &&& unread.after_stat(stat).phase is Done
                &&& unwritten.after_stat(stat).data.status == Some(
                    Err::<usize, UsbResult>(stat.reported()),
                )
                &&& unread.after_stat(stat).data.status == Some(
                    Err::<usize, UsbResult>(stat.reported()),
                )
                &&& unwritten.after_stat(stat).data.transfer == start.data.transfer
                &&& unread.after_stat(stat).data.transfer == start.data.transfer
            } else {
                &&& unwritten.phase is Done
                &&& unread.phase is Done
                &&& unwritten.data.status == Some(
                    Err::<usize, UsbResult>(UsbResult::Errno(errno)),
                )
                &&& unread.data.status == Some(Err::<usize, UsbResult>(UsbResult::Errno(errno)))
            }
        }),
{
}

/// Which transfers belong on the control pipe, and how much of an answer each
/// expects.
pub proof fn control_kinds(transfer: ControlView, parts: PartsView)
    requires
        transfer.data.transfer == Some(parts),
    ensures
        is_control(parts.kind) <==> !(parts.kind is BulkIn) && !(parts.kind is BulkOut),
        transfer.kind() == parts.kind,
        parts.kind is ControlOut ==> transfer.data_in_len() == 0,
        parts.kind matches TransferType::ControlIn { data_in_len } ==> transfer.data_in_len()
            == data_in_len,
{
}

/// The mathematical value of a control transfer has its data and its phase.
pub proof fn control_view_is_faithful(transfer: ControlTransfer)
    ensures
        transfer@.data == transfer.data@,
        transfer@.phase == transfer.phase,
{
}

} // verus!
