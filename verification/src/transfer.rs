//! A single transfer: what it sends or receives, how it ended, and what its
//! owner gets back.

use vstd::prelude::*;

use crate::buffer::{written_over, zeros, Buffer, BufferView, Completion};
use crate::errno::{Errno, Errnos, TransferError};
use crate::host::ask;
use crate::usb::{ControlIn, ControlOut, Direction, SETUP_PACKET_SIZE};

verus! {

/// The status that stands for an error which the driver did not specify.
pub const USB_LC_STAT_UNSPECIFIED_ERR: u32 = 0xe;

/// Why a transfer failed: the read or write itself failed, or it succeeded and
/// the status node of the endpoint reported an error.
#[derive(Clone, Copy, Debug, PartialEq, Eq, Structural)]
pub enum UsbResult {
    Errno(Errno),
    UgenStat(u32),
}

impl UsbResult {
    /// Whether `error` is what this failure means, given the error numbers of
    /// the system and what each status of the driver means.
    pub open spec fn means<U: Fn(u32) -> TransferError>(
        self,
        error: TransferError,
        errnos: Errnos,
        ugen_to_transfer_error: U,
    ) -> bool {
        match self {
            UsbResult::Errno(e) => error == errnos.meaning(e),
            UsbResult::UgenStat(code) => call_ensures(ugen_to_transfer_error, (code,), error),
        }
    }

    /// Whether the meaning of this failure can be asked for.
    pub open spec fn has_meaning<U: Fn(u32) -> TransferError>(
        self,
        ugen_to_transfer_error: U,
    ) -> bool {
        self matches UsbResult::UgenStat(code) ==> call_requires(ugen_to_transfer_error, (code,))
    }

    /// Finds what this failure means.
    pub fn to_transfer_error<U: Fn(u32) -> TransferError>(
        self,
        errnos: &Errnos,
        ugen_to_transfer_error: U,
    ) -> (error: TransferError)
        requires
            self.has_meaning(ugen_to_transfer_error),
        ensures
            self.means(error, *errnos, ugen_to_transfer_error),
            self matches UsbResult::Errno(e) ==> error == errnos.meaning(e),
            self matches UsbResult::UgenStat(code) ==> call_ensures(
                ugen_to_transfer_error,
                (code,),
                error,
            ),
    {
        match self {
            UsbResult::Errno(e) => errnos.transfer_error(e),
            UsbResult::UgenStat(code) => ugen_to_transfer_error(code),
        }
    }
}

/// What kind of transfer it is.
#[derive(Clone, Copy, Debug, PartialEq, Eq, Structural)]
pub enum TransferType {
    ControlOut,
    ControlIn {
        /// How many bytes to read after the setup packet.
        data_in_len: u32,
    },
    BulkIn,
    BulkOut,
}

/// The kind of a transfer and its memory.
#[derive(Debug)]
pub struct TransferParts {
    pub kind: TransferType,
    pub buffer: Buffer,
}

/// An asynchronous request that was handed to the system: the file it is for
/// and the address of its control block.
#[derive(Clone, Copy, Debug, PartialEq, Eq, Structural)]
pub struct AioHandle {
    pub fildes: i32,
    pub block: usize,
}

/// A transfer.
#[derive(Debug)]
pub struct TransferData {
    /// How it ended, once it has.
    pub status: Option<Result<usize, UsbResult>>,
    /// What is transferred, until the owner takes it back.
    pub transfer: Option<TransferParts>,
    /// The asynchronous request that carries it.
    pub aiocb: Option<AioHandle>,
    /// The status node to ask when that request fails.
    pub raw_stat_fd: i32,
}

/// A [`TransferParts`] as a mathematical value.
pub ghost struct PartsView {
    pub kind: TransferType,
    pub buffer: BufferView,
}

/// A [`TransferData`] as a mathematical value.
pub ghost struct TransferView {
    pub status: Option<Result<usize, UsbResult>>,
    pub transfer: Option<PartsView>,
    pub aiocb: Option<AioHandle>,
    pub raw_stat_fd: i32,
}

impl View for TransferParts {
    type V = PartsView;

    open spec fn view(&self) -> PartsView {
        PartsView { kind: self.kind, buffer: self.buffer@ }
    }
}

impl View for TransferData {
    type V = TransferView;

    open spec fn view(&self) -> TransferView {
        TransferView {
            status: self.status,
            transfer: match self.transfer {
                Some(parts) => Some(parts@),
                None => None,
            },
            aiocb: self.aiocb,
            raw_stat_fd: self.raw_stat_fd,
        }
    }
}

impl PartsView {
    /// The memory holds what a transfer of this kind needs.
    pub open spec fn wf(self) -> bool {
        &&& self.buffer.wf()
        &&& self.kind matches TransferType::ControlIn { data_in_len } ==> SETUP_PACKET_SIZE
            + data_in_len <= self.buffer.memory.len()
    }

    /// Whether this is a transfer on a bulk endpoint.
    pub open spec fn is_bulk(self) -> bool {
        self.kind is BulkIn || self.kind is BulkOut
    }

    /// How many bytes a bulk transfer is for: to receive, what the buffer asks
    /// for; to send, the data that it holds.
    pub open spec fn bulk_size(self) -> int {
        if self.kind is BulkIn {
            self.buffer.requested_len as int
        } else {
            self.buffer.len as int
        }
    }

    /// The parts after a transfer that ended with `status` and left `bytes` in
    /// the memory that it was for.
    pub open spec fn received(self, status: Result<usize, UsbResult>, bytes: Seq<u8>) -> PartsView {
        match status {
            Ok(n) if self.kind is BulkIn => PartsView {
                buffer: BufferView {
                    memory: written_over(self.buffer.memory, 0, bytes.take(n as int)),
                    ..self.buffer
                },
                ..self
            },
            _ => self,
        }
    }
}

impl TransferView {
    /// A transfer of the given kind that has not begun.
    pub open spec fn fresh(kind: TransferType, buffer: BufferView) -> TransferView {
        TransferView {
            status: None,
            transfer: Some(PartsView { kind, buffer }),
            aiocb: None,
            raw_stat_fd: -1i32,
        }
    }

    /// The parts are as they have to be, and no more bytes were received than
    /// the memory holds.
    pub open spec fn wf(self) -> bool {
        self.transfer matches Some(parts) ==> {
            &&& parts.wf()
            &&& parts.kind is BulkIn ==> (self.status matches Some(Ok(n)) ==> n
                <= parts.buffer.memory.len())
        }
    }

    /// Whether this transfer can be carried by an asynchronous request.
    pub open spec fn can_start_bulk(self) -> bool {
        self.transfer matches Some(parts) && parts.is_bulk()
    }

    /// Whether its owner can take it back.
    pub open spec fn can_take_completion(self) -> bool {
        self.status is Some && self.transfer is Some
    }

    /// The transfer after its asynchronous request was handed to the system,
    /// which refused it if there is an `error`.
    pub open spec fn submitted(self, handle: AioHandle, error: Option<Errno>) -> TransferView {
        TransferView {
            aiocb: Some(handle),
            status: match error {
                Some(e) => Some(Err(UsbResult::Errno(e))),
                None => self.status,
            },
            ..self
        }
    }

    /// The transfer after its asynchronous request ended with `status` and left
    /// `bytes` in the memory that it was for.
    pub open spec fn finished(self, status: Result<usize, UsbResult>, bytes: Seq<u8>) -> TransferView {
        TransferView {
            status: Some(status),
            transfer: match self.transfer {
                Some(parts) => Some(parts.received(status, bytes)),
                None => None,
            },
            aiocb: None,
            ..self
        }
    }

    /// Whether a report of `status` and `bytes` can be true of this transfer:
    /// no more was transferred than was asked for.
    pub open spec fn admits(self, status: Result<usize, UsbResult>, bytes: Seq<u8>) -> bool {
        self.transfer matches Some(parts) ==> (parts.kind is BulkIn ==> (status matches Ok(n) ==> n
            <= bytes.len() <= parts.buffer.memory.len()))
    }

    /// The transfer after its owner took it back.
    pub open spec fn spent(self) -> TransferView {
        TransferView { status: None, transfer: None, ..self }
    }

    /// The buffer that the owner gets back. After a read it holds what was
    /// received, after any other transfer what it held before.
    pub open spec fn returned_buffer(self) -> BufferView
        recommends
            self.can_take_completion(),
    {
        let parts = self.transfer->0;
        if parts.kind is BulkIn {
            BufferView { len: self.actual_len() as u32, ..parts.buffer }
        } else {
            parts.buffer
        }
    }

    /// How many bytes were transferred.
    pub open spec fn actual_len(self) -> usize
        recommends
            self.can_take_completion(),
    {
        match self.status {
            Some(Ok(n)) => n,
            _ => 0,
        }
    }
}

/// The direction of a bulk transfer.
pub open spec fn bulk_direction(kind: TransferType) -> Direction {
    if kind is BulkIn {
        Direction::In
    } else {
        Direction::Out
    }
}

/// The codes by which an asynchronous request says what it is.
#[derive(Clone, Copy, Debug)]
pub struct AioCodes {
    pub lio_read: i32,
    pub lio_write: i32,
    pub sigev_thread: i32,
}

impl AioCodes {
    /// Reads and writes have different codes.
    pub open spec fn wf(&self) -> bool {
        self.lio_read != self.lio_write
    }

    /// Whether these are the codes that `host_aio_codes` finds, each in its field.
    pub closed spec fn is_host(self) -> bool {
        call_ensures(host_aio_codes, (), self)
    }

    /// The codes of the system that this code runs on.
    pub fn host() -> (codes: AioCodes)
        ensures
            codes.is_host(),
            codes.wf(),
    {
        ask(host_aio_codes)
    }
}

/// The constants `LIO_READ`, `LIO_WRITE` and `SIGEV_THREAD` of `libc`. Trusted:
/// the first two differ on every system for which `libc` defines them. The
/// values themselves depend on the system.
#[verifier::external_body]
fn host_aio_codes() -> (codes: AioCodes)
    ensures
        codes.wf(),
{
    AioCodes {
        lio_read: libc::LIO_READ,
        lio_write: libc::LIO_WRITE,
        sigev_thread: libc::SIGEV_THREAD,
    }
}

/// An asynchronous request to be handed to the system.
#[derive(Debug)]
pub struct AioRequest {
    /// Whether it is a read or a write.
    pub direction: Direction,
    /// The file to read from or write to.
    pub fildes: i32,
    pub lio_opcode: i32,
    pub offset: i64,
    pub reqprio: i32,
    pub sigev_notify: i32,
    pub sigev_signo: i32,
    /// The memory that it is for, as it is before the request.
    pub data: Vec<u8>,
}

impl AioRequest {
    /// Whether this is the request that carries `parts` to or from the file `fd`.
    pub open spec fn carries(&self, parts: PartsView, fd: i32, codes: AioCodes) -> bool {
        &&& self.direction == bulk_direction(parts.kind)
        &&& self.fildes == fd
        &&& self.lio_opcode == if parts.kind is BulkIn {
            codes.lio_read
        } else {
            codes.lio_write
        }
        &&& self.offset == 0
        &&& self.reqprio == 0
        &&& self.sigev_notify == codes.sigev_thread
        &&& self.sigev_signo == 0
        &&& self.data@ == parts.buffer.memory.take(parts.bulk_size())
    }
}

/// What reading four bytes from a status node gave.
#[derive(Clone, Copy, Debug)]
pub enum StatRead {
    /// So many bytes were read into this memory.
    Read { count: usize, bytes: [u8; 4] },
    /// The read failed.
    Failed(Errno),
}

impl StatRead {
    /// The failure that the status node reports: the number in its four bytes,
    /// the low one first; an unspecified one if it gave fewer; the error of the
    /// read if that failed.
    pub open spec fn reported(self) -> UsbResult {
        match self {
            StatRead::Read { count, bytes } => if count == 4 {
                UsbResult::UgenStat(
                    (bytes@[0] + 0x100 * bytes@[1] + 0x1_0000 * bytes@[2] + 0x100_0000
                        * bytes@[3]) as u32,
                )
            } else {
                UsbResult::UgenStat(USB_LC_STAT_UNSPECIFIED_ERR)
            },
            StatRead::Failed(errno) => UsbResult::Errno(errno),
        }
    }

    /// Finds the failure that the status node reports.
    pub fn to_usb_result(self) -> (result: UsbResult)
        ensures
            result == self.reported(),
            self matches StatRead::Failed(errno) ==> result == UsbResult::Errno(errno),
            self matches StatRead::Read { count, bytes } ==> (result matches UsbResult::UgenStat(
                code,
            ) && code == if count == 4 {
                bytes@[0] + 0x100 * bytes@[1] + 0x1_0000 * bytes@[2] + 0x100_0000 * bytes@[3]
            } else {
                0xe
            }),
    {
        match self {
            StatRead::Read { count, bytes } => if count == 4 {
                UsbResult::UgenStat(
                    bytes[0] as u32 + 0x100 * (bytes[1] as u32) + 0x1_0000 * (bytes[2] as u32)
                        + 0x100_0000 * (bytes[3] as u32),
                )
            } else {
                UsbResult::UgenStat(USB_LC_STAT_UNSPECIFIED_ERR)
            },
            StatRead::Failed(errno) => UsbResult::Errno(errno),
        }
    }
}

/// What a finished read or write says of its transfer.
#[derive(Clone, Copy, Debug, PartialEq, Eq)]
pub enum Outcome {
    /// The transfer ended like this.
    Settled(Result<usize, UsbResult>),
    /// The transfer failed, and the status node has to be asked why.
    CheckStat,
}

/// What the result of a read or write says of its transfer: the status node is
/// asked for the one error number -1.
pub fn handle_errno_result(status: Result<usize, Errno>) -> (outcome: Outcome)
    ensures
        match status {
            Ok(n) => outcome == Outcome::Settled(Ok(n)),
            Err(errno) => outcome == if errno.raw == -1 {
                Outcome::CheckStat
            } else {
                Outcome::Settled(Err(UsbResult::Errno(errno)))
            },
        },
{
    match status {
        Ok(n) => Outcome::Settled(Ok(n)),
        Err(errno) => if errno.raw_os_error() == -1 {
            Outcome::CheckStat
        } else {
            Outcome::Settled(Err(UsbResult::Errno(errno)))
        },
    }
}

/// What an asynchronous request that has ended says of its transfer.
#[derive(Clone, Copy, Debug, PartialEq, Eq, Structural)]
pub enum AioOutcome {
    /// It succeeded, and its return value says how many bytes were transferred.
    TakeReturn,
    /// It failed, and the status node has to be asked why.
    CheckStat,
    /// It failed like this.
    Failed(UsbResult),
}

impl AioOutcome {
    /// What the error number of an ended asynchronous request says of its
    /// transfer.
    pub open spec fn of_error(error: i32) -> AioOutcome {
        if error == 0 {
            AioOutcome::TakeReturn
        } else if error == -1 {
            AioOutcome::CheckStat
        } else {
            AioOutcome::Failed(UsbResult::Errno(Errno { raw: error }))
        }
    }
}

/// What the error number of an ended asynchronous request says of its transfer.
pub fn aio_outcome(error: i32) -> (outcome: AioOutcome)
    ensures
        outcome == AioOutcome::of_error(error),
        outcome is TakeReturn <==> error == 0,
        outcome is CheckStat <==> error == -1,
        outcome matches AioOutcome::Failed(failure) ==> failure == UsbResult::Errno(
            Errno { raw: error },
        ),
{
    if error == 0 {
        AioOutcome::TakeReturn
    } else if error == -1 {
        AioOutcome::CheckStat
    } else {
        AioOutcome::Failed(UsbResult::Errno(Errno::from_raw_os_error(error)))
    }
}

/// What was found out where an [`AioOutcome`] asks for more.
#[derive(Clone, Copy, Debug)]
pub enum AioReply {
    /// The return value of the request.
    Returned(usize),
    /// What the status node gave.
    Stat(StatRead),
    /// Nothing was asked for.
    Nothing,
}

impl AioReply {
    /// Whether this is what `outcome` asks for.
    pub open spec fn answers(self, outcome: AioOutcome) -> bool {
        match outcome {
            AioOutcome::TakeReturn => self is Returned,
            AioOutcome::CheckStat => self is Stat,
            AioOutcome::Failed(_) => self is Nothing,
        }
    }
}

/// How a transfer ended whose asynchronous request says `outcome`, given what was
/// found out where that asks for more.
pub open spec fn settled(outcome: AioOutcome, reply: AioReply) -> Result<usize, UsbResult> {
    match outcome {
        AioOutcome::TakeReturn => Ok(reply->Returned_0),
        AioOutcome::CheckStat => Err(reply->Stat_0.reported()),
        AioOutcome::Failed(failure) => Err(failure),
    }
}

/// Finds how a transfer ended whose asynchronous request says `outcome`.
pub fn aio_status(outcome: AioOutcome, reply: AioReply) -> (status: Result<usize, UsbResult>)
    requires
        reply.answers(outcome),
    ensures
        status == settled(outcome, reply),
        outcome is TakeReturn ==> status == Ok::<usize, UsbResult>(reply->Returned_0),
        outcome is CheckStat ==> status == Err::<usize, UsbResult>(reply->Stat_0.reported()),
        outcome matches AioOutcome::Failed(failure) ==> status == Err::<usize, UsbResult>(failure),
{
    match (outcome, reply) {
        (AioOutcome::Failed(failure), _) => Err(failure),
        (_, AioReply::Stat(stat)) => Err(stat.to_usb_result()),
        (_, AioReply::Returned(n)) => Ok(n),
        (_, AioReply::Nothing) => Ok(0),
    }
}

/// Why the system refused an asynchronous request, if it did: handing it over
/// gave `result`, and `errno` is the error number that the system left behind.
pub fn aio_refusal(result: i32, errno: Errno) -> (error: Option<Errno>)
    ensures
        error == if result < 0 {
            Some(errno)
        } else {
            None
        },
{
    if result < 0 {
        Some(errno)
    } else {
        None
    }
}

impl TransferData {
    /// A transfer that sends a control request and its data.
    pub fn new_control_out(data: ControlOut) -> (transfer: TransferData)
        requires
            data.wf(),
        ensures
            transfer@ == TransferView::fresh(
                TransferType::ControlOut,
                BufferView {
                    memory: data.setup() + data.data@,
                    len: (SETUP_PACKET_SIZE + data.data@.len()) as u32,
                    requested_len: (SETUP_PACKET_SIZE + data.data@.len()) as u32,
                },
            ),
            transfer@.wf(),
    {
        let packet = data.setup_packet();
        let mut buffer = Buffer::new(SETUP_PACKET_SIZE + data.data.len());
        buffer.extend_from_slice(&packet);
        buffer.extend_from_slice(data.data);
        assert(buffer@.memory =~= data.setup() + data.data@);
        TransferData {
            status: None,
            transfer: Some(TransferParts { kind: TransferType::ControlOut, buffer }),
            aiocb: None,
            raw_stat_fd: -1,
        }
    }

    /// A transfer that sends a control request and receives the answer behind
    /// the request.
    pub fn new_control_in(data: ControlIn) -> (transfer: TransferData)
        ensures
            transfer@ == TransferView::fresh(
                TransferType::ControlIn { data_in_len: data.length as u32 },
                BufferView {
                    memory: data.setup() + zeros(data.length as nat),
                    len: SETUP_PACKET_SIZE as u32,
                    requested_len: (SETUP_PACKET_SIZE + data.length) as u32,
                },
            ),
            transfer@.wf(),
    {
        let packet = data.setup_packet();
        let mut buffer = Buffer::new(SETUP_PACKET_SIZE + data.length as usize);
        buffer.extend_from_slice(&packet);
        assert(buffer@.memory =~= data.setup() + zeros(data.length as nat));
        TransferData {
            status: None,
            transfer: Some(
                TransferParts {
                    kind: TransferType::ControlIn { data_in_len: data.length as u32 },
                    buffer,
                },
            ),
            aiocb: None,
            raw_stat_fd: -1,
        }
    }

    /// A transfer that receives into `buffer`.
    pub fn new_bulk_in(buffer: Buffer) -> (transfer: TransferData)
        ensures
            transfer@ == TransferView::fresh(TransferType::BulkIn, buffer@),
    {
        TransferData {
            status: None,
            transfer: Some(TransferParts { kind: TransferType::BulkIn, buffer }),
            aiocb: None,
            raw_stat_fd: -1,
        }
    }

    /// A transfer that sends the data of `buffer`.
    pub fn new_bulk_out(buffer: Buffer) -> (transfer: TransferData)
        ensures
            transfer@ == TransferView::fresh(TransferType::BulkOut, buffer@),
    {
        TransferData {
            status: None,
            transfer: Some(TransferParts { kind: TransferType::BulkOut, buffer }),
            aiocb: None,
            raw_stat_fd: -1,
        }
    }

    /// Whether the transfer failed, and how. One that has not ended has not
    /// failed.
    pub fn status<U: Fn(u32) -> TransferError>(
        &self,
        errnos: &Errnos,
        ugen_to_transfer_error: U,
    ) -> (status: Result<(), TransferError>)
        requires
            self.status matches Some(Err(e)) ==> e.has_meaning(ugen_to_transfer_error),
        ensures
            match self.status {
                Some(Err(e)) => status matches Err(error) && e.means(
                    error,
                    *errnos,
                    ugen_to_transfer_error,
                ),
                _ => status == Ok::<(), TransferError>(()),
            },
    {
        match self.status {
            None => Ok(()),
            Some(Ok(_)) => Ok(()),
            Some(Err(e)) => Err(e.to_transfer_error(errnos, ugen_to_transfer_error)),
        }
    }

    /// Hands a transfer that has ended back to its owner: how it ended, how many
    /// bytes were transferred, and its buffer.
    pub fn take_completion<U: Fn(u32) -> TransferError>(
        &mut self,
        errnos: &Errnos,
        ugen_to_transfer_error: U,
    ) -> (completion: Completion)
        requires
            old(self)@.wf(),
            old(self)@.can_take_completion(),
            old(self).status matches Some(Err(e)) ==> e.has_meaning(ugen_to_transfer_error),
        ensures
            final(self)@ == old(self)@.spent(),
            match old(self).status {
                Some(Err(e)) => completion.status matches Err(error) && e.means(
                    error,
                    *errnos,
                    ugen_to_transfer_error,
                ),
                _ => completion.status == Ok::<(), TransferError>(()),
            },
            completion.actual_len == old(self)@.actual_len(),
            completion.buffer@ == old(self)@.returned_buffer(),
            completion.buffer@.wf(),
            completion.actual_len == match old(self).status {
                Some(Ok(n)) => n,
                _ => 0,
            },
            completion.buffer@.memory == old(self)@.transfer->0.buffer.memory,
            completion.buffer@.len == if old(self)@.transfer->0.kind is BulkIn {
                completion.actual_len as int
            } else {
                old(self)@.transfer->0.buffer.len as int
            },
    {
        let (len, status): (usize, Result<(), TransferError>) = match self.status.unwrap() {
            Ok(len) => (len, Ok(())),
            Err(e) => (0, Err(e.to_transfer_error(errnos, ugen_to_transfer_error))),
        };
        self.status = None;
        let TransferParts { kind, mut buffer } = self.transfer.take().unwrap();
        match kind {
            TransferType::ControlOut => {},
            TransferType::ControlIn { .. } => {},
            TransferType::BulkIn => {
                buffer.len = len as u32;
            },
            TransferType::BulkOut => {},
        }
        Completion { buffer, actual_len: len, status }
    }

    /// Prepares the asynchronous request that carries this transfer to or from
    /// the file `fd`, with the status node `stat_fd`.
    pub fn start_bulk(&mut self, fd: i32, stat_fd: i32, codes: &AioCodes) -> (request: AioRequest)
        requires
            old(self)@.wf(),
            old(self)@.can_start_bulk(),
        ensures
            final(self)@ == (TransferView { raw_stat_fd: stat_fd, ..old(self)@ }),
            request.carries(old(self)@.transfer->0, fd, *codes),
            old(self)@.transfer->0.kind is BulkOut ==> {
                &&& request.direction is Out
                &&& request.lio_opcode == codes.lio_write
                &&& request.data@ == old(self)@.transfer->0.buffer.memory.take(
                    old(self)@.transfer->0.buffer.len as int,
                )
            },
            old(self)@.transfer->0.kind is BulkIn ==> {
                &&& request.direction is In
                &&& request.lio_opcode == codes.lio_read
                &&& request.data@ == old(self)@.transfer->0.buffer.memory.take(
                    old(self)@.transfer->0.buffer.requested_len as int,
                )
            },
            request.fildes == fd,
    {
        self.raw_stat_fd = stat_fd;
        let (direction, lio_opcode, data) = match &self.transfer {
            Some(TransferParts { kind: TransferType::BulkIn, buffer }) => (
                Direction::In,
                codes.lio_read,
                buffer.prefix(buffer.requested_len as usize),
            ),
            Some(TransferParts { kind: _, buffer }) => (
                Direction::Out,
                codes.lio_write,
                buffer.prefix(buffer.len as usize),
            ),
            None => (Direction::Out, codes.lio_write, Vec::new()),
        };
        AioRequest {
            direction,
            fildes: fd,
            lio_opcode,
            offset: 0,
            reqprio: 0,
            sigev_notify: codes.sigev_thread,
            sigev_signo: 0,
            data,
        }
    }

    /// The asynchronous request was handed to the system, which refused it if
    /// there is an `error`.
    pub fn aio_submitted(&mut self, handle: AioHandle, error: Option<Errno>)
        ensures
            final(self)@ == old(self)@.submitted(handle, error),
            old(self)@.wf() ==> final(self)@.wf(),
            final(self).aiocb == Some(handle),
            final(self).status == match error {
                Some(e) => Some(Err(UsbResult::Errno(e))),
                None => old(self).status,
            },
    {
        self.aiocb = Some(handle);
        if let Some(e) = error {
            self.status = Some(Err(UsbResult::Errno(e)));
        }
    }

    /// The asynchronous request ended with `status` and left `bytes` in the
    /// memory that it was for.
    pub fn aio_finished(&mut self, status: Result<usize, UsbResult>, bytes: &[u8])
        requires
            old(self)@.wf(),
            old(self)@.admits(status, bytes@),
        ensures
            final(self)@ == old(self)@.finished(status, bytes@),
            final(self)@.wf(),
            final(self).aiocb is None,
            final(self).status == Some(status),
    {
        self.aiocb = None;
        if let Ok(n) = status {
            if let Some(parts) = &mut self.transfer {
                if let TransferType::BulkIn = parts.kind {
                    let received = vstd::slice::slice_subrange(bytes, 0, n);
                    assert(received@ =~= bytes@.take(n as int));
                    parts.buffer.write_at(0, received);
                }
            }
        }
        self.status = Some(status);
    }

    /// The asynchronous request to cancel, if there is one.
    pub fn cancel(&self) -> (handle: Option<AioHandle>)
        ensures
            handle == self.aiocb,
    {
        self.aiocb
    }
}

/// What a bulk transfer received is what its owner gets back, and nothing else:
/// the buffer holds the bytes that arrived, and their number is reported.
pub proof fn received_bytes_are_returned(
    buffer: BufferView,
    before: TransferView,
    n: usize,
    bytes: Seq<u8>,
)
    requires
        before.transfer == Some(PartsView { kind: TransferType::BulkIn, buffer }),
        buffer.wf(),
        before.admits(Ok(n), bytes),
    ensures
        ({
            let end = before.finished(Ok(n), bytes);
            &&& end.can_take_completion()
            &&& end.actual_len() == n
            &&& end.returned_buffer().data() == bytes.take(n as int)
            &&& end.returned_buffer().memory.skip(n as int) == buffer.memory.skip(n as int)
            &&& end.returned_buffer().memory.take(n as int) == bytes.take(n as int)
            &&& end.returned_buffer().memory.len() == buffer.memory.len()
            &&& end.returned_buffer().len == n
            &&& end.returned_buffer().requested_len == buffer.requested_len
        }),
{
    let end = before.finished(Ok(n), bytes);
    assert(end.returned_buffer().data() =~= bytes.take(n as int));
    assert(end.returned_buffer().memory.take(n as int) =~= bytes.take(n as int));
    assert(end.returned_buffer().memory.skip(n as int) =~= buffer.memory.skip(n as int));
}

/// A bulk transfer that sends gives its buffer back as it was submitted, however
/// it ended.
pub proof fn sent_buffer_is_returned(
    buffer: BufferView,
    before: TransferView,
    status: Result<usize, UsbResult>,
    bytes: Seq<u8>,
)
    requires
        before.transfer == Some(PartsView { kind: TransferType::BulkOut, buffer }),
    ensures
        before.finished(status, bytes).returned_buffer() == buffer,
        status matches Ok(n) ==> before.finished(status, bytes).actual_len() == n,
{
}

/// A bulk transfer that failed reports no bytes, and if it was to receive, its
/// buffer holds none.
pub proof fn failed_transfer_returns_nothing(
    before: TransferView,
    failure: UsbResult,
    bytes: Seq<u8>,
)
    requires
        before.can_start_bulk(),
    ensures
        before.finished(Err(failure), bytes).actual_len() == 0,
        before.transfer->0.kind is BulkIn ==> before.finished(
            Err(failure),
            bytes,
        ).returned_buffer().data() == Seq::<u8>::empty(),
        before.finished(Err(failure), bytes).returned_buffer().memory
            == before.transfer->0.buffer.memory,
        before.finished(Err(failure), bytes).status == Some(Err::<usize, UsbResult>(failure)),
{
    let end = before.finished(Err(failure), bytes);
    if before.transfer->0.kind is BulkIn {
        assert(end.returned_buffer().data() =~= Seq::<u8>::empty());
    }
}

/// A failure means what its error number means, or else what the status of the
/// driver means.
pub proof fn failures_mean_what_their_codes_mean<U: Fn(u32) -> TransferError>(
    failure: UsbResult,
    error: TransferError,
    errnos: Errnos,
    ugen_to_transfer_error: U,
)
    ensures
        failure matches UsbResult::Errno(e) ==> {
            &&& failure.has_meaning(ugen_to_transfer_error)
            &&& failure.means(error, errnos, ugen_to_transfer_error) <==> error
                == errnos.meaning(e)
        },
        failure matches UsbResult::UgenStat(code) ==> {
            &&& failure.has_meaning(ugen_to_transfer_error) <==> call_requires(
                ugen_to_transfer_error,
                (code,),
            )
            &&& failure.means(error, errnos, ugen_to_transfer_error) <==> call_ensures(
                ugen_to_transfer_error,
                (code,),
                error,
            )
        },
{
}

/// The request for a transfer that sends is a write of all the data of its
/// buffer; the request for one that receives is a read of as many bytes as its
/// buffer asks for. Both are for the file of the endpoint, from its start.
pub proof fn request_is_for_the_whole_buffer(
    request: AioRequest,
    kind: TransferType,
    buffer: BufferView,
    fd: i32,
    codes: AioCodes,
)
    requires
        buffer.len <= buffer.memory.len(),
        buffer.requested_len <= buffer.memory.len(),
        request.carries(PartsView { kind, buffer }, fd, codes),
    ensures
        kind is BulkOut ==> {
            &&& request.direction is Out
            &&& request.lio_opcode == codes.lio_write
            &&& request.data@.len() == buffer.len
            &&& forall|i: int| 0 <= i < buffer.len ==> #[trigger] request.data@[i]
                == buffer.memory[i]
        },
        kind is BulkIn ==> {
            &&& request.direction is In
            &&& request.lio_opcode == codes.lio_read
            &&& request.data@.len() == buffer.requested_len
        },
        request.fildes == fd,
        request.offset == 0,
        request.reqprio == 0,
        request.sigev_notify == codes.sigev_thread,
        request.sigev_signo == 0,
{
}

/// A transfer that has not begun holds its kind and its buffer, and has no
/// outcome, no request and no status node. If it is a bulk transfer, it can be
/// started.
pub proof fn fresh_transfer_has_not_begun(kind: TransferType, buffer: BufferView)
    ensures
        ({
            let fresh = TransferView::fresh(kind, buffer);
            &&& fresh.status is None
            &&& fresh.aiocb is None
            &&& fresh.raw_stat_fd == -1
            &&& fresh.transfer matches Some(parts) && parts.kind == kind && parts.buffer == buffer
            &&& fresh.can_start_bulk() <==> kind is BulkIn || kind is BulkOut
            &&& !fresh.can_take_completion()
        }),
{
}

/// Handing a request to the system records its handle, whatever the transfer is.
/// If the system refuses the request, the transfer has failed with that error;
/// otherwise its outcome is as before. What it transfers does not change.
pub proof fn handed_over_request_is_recorded(
    before: TransferView,
    handle: AioHandle,
    error: Option<Errno>,
)
    ensures
        before.submitted(handle, error).aiocb == Some(handle),
        error is None ==> before.submitted(handle, error).status == before.status,
        error matches Some(e) ==> before.submitted(handle, error).status == Some(
            Err::<usize, UsbResult>(UsbResult::Errno(e)),
        ),
        before.submitted(handle, error).transfer == before.transfer,
        before.submitted(handle, error).raw_stat_fd == before.raw_stat_fd,
{
}

/// A request that has ended leaves its outcome with the transfer and is no longer
/// to be cancelled. The kind of the transfer and the lengths of its buffer do not
/// change.
pub proof fn ended_request_is_recorded(
    before: TransferView,
    status: Result<usize, UsbResult>,
    bytes: Seq<u8>,
)
    ensures
        before.finished(status, bytes).status == Some(status),
        before.finished(status, bytes).aiocb is None,
        before.finished(status, bytes).raw_stat_fd == before.raw_stat_fd,
        before.transfer is None ==> before.finished(status, bytes).transfer is None,
        before.transfer matches Some(parts) ==> {
            &&& before.finished(status, bytes).can_take_completion()
            &&& before.finished(status, bytes).transfer matches Some(after) && after.kind
                == parts.kind && after.buffer.len == parts.buffer.len && after.buffer.requested_len
                == parts.buffer.requested_len && after.buffer.memory.len()
                == parts.buffer.memory.len()
            &&& !(parts.kind is BulkIn) ==> before.finished(status, bytes).transfer == Some(parts)
        },
{
}

/// A report of the end of a request can be true unless it says that more was
/// received than there is room for.
pub proof fn true_reports_are_admitted(
    before: TransferView,
    status: Result<usize, UsbResult>,
    bytes: Seq<u8>,
)
    ensures
        status is Err ==> before.admits(status, bytes),
        before.transfer matches Some(parts) && !(parts.kind is BulkIn) ==> before.admits(
            status,
            bytes,
        ),
        before.transfer matches Some(parts) ==> (parts.kind is BulkIn ==> (status matches Ok(n)
            ==> (before.admits(status, bytes) <==> n <= bytes.len() && bytes.len()
            <= parts.buffer.memory.len()))),
{
}

/// What the owner of a transfer that has ended gets back: its memory, and the
/// number of bytes that were transferred, none if it failed. After a read the
/// length of the data is that number; otherwise it is as it was.
pub proof fn completion_gives_back(
    ended: TransferView,
    parts: PartsView,
    status: Result<usize, UsbResult>,
)
    requires
        ended.transfer == Some(parts),
        ended.status == Some(status),
        status matches Ok(n) ==> n <= u32::MAX,
    ensures
        ended.can_take_completion(),
        ended.actual_len() == match status {
            Ok(n) => n as int,
            Err(_) => 0,
        },
        ended.returned_buffer().memory == parts.buffer.memory,
        ended.returned_buffer().requested_len == parts.buffer.requested_len,
        parts.kind is BulkIn ==> ended.returned_buffer().len == ended.actual_len(),
        !(parts.kind is BulkIn) ==> ended.returned_buffer().len == parts.buffer.len,
{
}

/// A transfer that was taken back has no outcome and no buffer any more; the rest
/// of it stays.
pub proof fn spent_transfer_is_empty(before: TransferView)
    ensures
        before.spent().status is None,
        before.spent().transfer is None,
        before.spent().aiocb == before.aiocb,
        before.spent().raw_stat_fd == before.raw_stat_fd,
        !before.spent().can_take_completion(),
        !before.spent().can_start_bulk(),
{
}

/// The status node reports the number in its four bytes, the first of which
/// weighs least, an unspecified error if there are not four, and the error of the
/// read if that failed.
pub proof fn status_node_is_believed(count: usize, bytes: [u8; 4], errno: Errno)
    ensures
        (StatRead::Failed(errno)).reported() == UsbResult::Errno(errno),
        count != 4 ==> (StatRead::Read { count, bytes }).reported() == UsbResult::UgenStat(14),
        count == 4 ==> ((StatRead::Read { count, bytes }).reported() matches UsbResult::UgenStat(
            code,
        ) && code % 256 == bytes@[0] && (code / 256) % 256 == bytes@[1] && (code / 65536) % 256
            == bytes@[2] && code / 16777216 == bytes@[3]),
{
}

/// How an asynchronous request ends: with its return value if it has no error
/// number, with what the status node reports if the number is -1, and with the
/// number itself otherwise.
pub proof fn request_ends_by_its_error(error: i32, n: usize, stat: StatRead)
    ensures
        error == 0 ==> {
            &&& AioReply::Returned(n).answers(AioOutcome::of_error(error))
            &&& settled(AioOutcome::of_error(error), AioReply::Returned(n)) == Ok::<
                usize,
                UsbResult,
            >(n)
        },
        error == -1 ==> {
            &&& AioReply::Stat(stat).answers(AioOutcome::of_error(error))
            &&& settled(AioOutcome::of_error(error), AioReply::Stat(stat)) == Err::<
                usize,
                UsbResult,
            >(stat.reported())
        },
        error != 0 && error != -1 ==> {
            &&& AioReply::Nothing.answers(AioOutcome::of_error(error))
            &&& settled(AioOutcome::of_error(error), AioReply::Nothing) == Err::<
                usize,
                UsbResult,
            >(UsbResult::Errno(Errno { raw: error }))
        },
{
}

/// The mathematical value of a transfer has all its parts.
pub proof fn transfer_view_is_faithful(data: TransferData)
    ensures
        data@.status == data.status,
        data@.aiocb == data.aiocb,
        data@.raw_stat_fd == data.raw_stat_fd,
        data.transfer is None ==> data@.transfer is None,
        data.transfer matches Some(parts) ==> (data@.transfer matches Some(seen) && seen.kind
            == parts.kind && seen.buffer == parts.buffer@),
{
}

/// The codes of the system are those that were found, unchanged.
proof fn host_codes_are_found(codes: AioCodes)
    requires
        codes.is_host(),
    ensures
        call_ensures(host_aio_codes, (), codes),
{
}

} // verus!
