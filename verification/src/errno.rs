//! Operating system error numbers and what they mean for a transfer.

use rustix::io::Errno as HostErrno;
use vstd::prelude::*;

use crate::host::ask;
use crate::text::{decimal, push_decimal};

verus! {

/// An operating system error number.
#[derive(Clone, Copy, Debug, PartialEq, Eq, Structural)]
pub struct Errno {
    pub raw: i32,
}

impl Errno {
    /// The error with the given number.
    pub fn from_raw_os_error(raw: i32) -> (errno: Errno)
        ensures
            errno.raw == raw,
    {
        Errno { raw }
    }

    /// The number of this error.
    pub fn raw_os_error(self) -> (raw: i32)
        ensures
            raw == self.raw,
    {
        self.raw
    }
}

/// Why a transfer did not succeed.
#[derive(Clone, Copy, Debug, PartialEq, Eq, Structural)]
pub enum TransferError {
    /// The transfer was cancelled or timed out.
    Cancelled,
    /// The endpoint is in a stall condition.
    Stall,
    /// The device is gone.
    Disconnected,
    /// The bus or the hardware failed.
    Fault,
    /// The request itself was not valid.
    InvalidArgument,
    /// Another failure, with its code.
    Unknown(u32),
}

/// The error numbers that this library tells apart. The classic ones are the
/// same on all systems that it is for; the others differ from one to the next.
#[derive(Clone, Copy, Debug)]
pub struct Errnos {
    pub perm: i32,
    pub noent: i32,
    pub nodev: i32,
    pub inval: i32,
    pub pipe: i32,
    pub time: i32,
    pub comm: i32,
    pub proto: i32,
    pub overflow: i32,
    pub ilseq: i32,
    pub connreset: i32,
    pub shutdown: i32,
    pub timedout: i32,
}

impl Errnos {
    /// The numbers in the order of the fields.
    pub open spec fn numbers(&self) -> Seq<i32> {
        seq![
            self.perm,
            self.noent,
            self.nodev,
            self.inval,
            self.pipe,
            self.time,
            self.comm,
            self.proto,
            self.overflow,
            self.ilseq,
            self.connreset,
            self.shutdown,
            self.timedout,
        ]
    }

    /// The classic numbers are as everywhere, all numbers are positive, and no
    /// two of them are the same.
    pub open spec fn wf(&self) -> bool {
        &&& self.perm == 1
        &&& self.noent == 2
        &&& self.nodev == 19
        &&& self.inval == 22
        &&& self.pipe == 32
        &&& forall|i: int| 0 <= i < self.numbers().len() ==> #[trigger] self.numbers()[i] > 0
        &&& self.numbers().no_duplicates()
    }

    /// What error number `e` means for a transfer.
    pub open spec fn meaning(&self, e: Errno) -> TransferError {
        if e.raw == self.nodev || e.raw == self.shutdown {
            TransferError::Disconnected
        } else if e.raw == self.pipe {
            TransferError::Stall
        } else if e.raw == self.noent || e.raw == self.connreset || e.raw == self.timedout {
            TransferError::Cancelled
        } else if e.raw == self.proto || e.raw == self.ilseq || e.raw == self.overflow || e.raw
            == self.comm || e.raw == self.time {
            TransferError::Fault
        } else {
            TransferError::Unknown(as_unsigned(e.raw) as u32)
        }
    }

    /// Whether these are the numbers that `host_errnos` finds, each in its field.
    pub closed spec fn is_host(self) -> bool {
        call_ensures(host_errnos, (), self)
    }

    /// The numbers of the system that this code runs on.
    pub fn host() -> (errnos: Errnos)
        ensures
            errnos.is_host(),
            errnos.wf(),
    {
        ask(host_errnos)
    }

    /// Finds the meaning of `e`, given these numbers.
    pub fn transfer_error(&self, e: Errno) -> (error: TransferError)
        ensures
            error == self.meaning(e),
    {
        if e.raw == self.nodev || e.raw == self.shutdown {
            TransferError::Disconnected
        } else if e.raw == self.pipe {
            TransferError::Stall
        } else if e.raw == self.noent || e.raw == self.connreset || e.raw == self.timedout {
            TransferError::Cancelled
        } else if e.raw == self.proto || e.raw == self.ilseq || e.raw == self.overflow || e.raw
            == self.comm || e.raw == self.time {
            TransferError::Fault
        } else {
            TransferError::Unknown(to_unsigned(e.raw))
        }
    }
}

/// The value of a 32-bit number when its sign bit is read as a value bit.
pub open spec fn as_unsigned(raw: i32) -> int {
    if raw >= 0 {
        raw as int
    } else {
        raw + 0x1_0000_0000
    }
}

/// Reads the sign bit of `raw` as a value bit.
pub fn to_unsigned(raw: i32) -> (code: u32)
    ensures
        code == as_unsigned(raw),
        raw >= 0 ==> code == raw,
        raw < 0 ==> code == raw + 0x1_0000_0000,
{
    proof {
        assert(raw < 0 ==> (raw as u32) == raw + 0x1_0000_0000) by (bit_vector);
    }
    #[verifier::truncate]
    (raw as u32)
}

/// The associated constants `PERM` to `TIMEDOUT` of `rustix::io::Errno`, each as
/// the number that its `raw_os_error` gives. Trusted: on every system that has
/// all of them and the asynchronous I/O of `libc`, they are positive and
/// different from each other, and the classic ones (`PERM`, `NOENT`, `NODEV`,
/// `INVAL`, `PIPE`) are 1, 2, 19, 22 and 32. The values of the others depend on
/// the system and are left open.
#[verifier::external_body]
fn host_errnos() -> (errnos: Errnos)
    ensures
        errnos.wf(),
{
    Errnos {
        perm: HostErrno::PERM.raw_os_error(),
        noent: HostErrno::NOENT.raw_os_error(),
        nodev: HostErrno::NODEV.raw_os_error(),
        inval: HostErrno::INVAL.raw_os_error(),
        pipe: HostErrno::PIPE.raw_os_error(),
        time: HostErrno::TIME.raw_os_error(),
        comm: HostErrno::COMM.raw_os_error(),
        proto: HostErrno::PROTO.raw_os_error(),
        overflow: HostErrno::OVERFLOW.raw_os_error(),
        ilseq: HostErrno::ILSEQ.raw_os_error(),
        connreset: HostErrno::CONNRESET.raw_os_error(),
        shutdown: HostErrno::SHUTDOWN.raw_os_error(),
        timedout: HostErrno::TIMEDOUT.raw_os_error(),
    }
}

/// What error number `e` means for a transfer on the system that this code
/// runs on: its meaning by the numbers that [`Errnos::host`] gives.
pub fn errno_to_transfer_error(e: Errno) -> (error: TransferError)
    ensures
        exists|errnos: Errnos|
            #[trigger] call_ensures(Errnos::host, (), errnos) && errnos.wf() && error
                == errnos.meaning(e),
        e.raw == 19 ==> error == TransferError::Disconnected,
        e.raw == 32 ==> error == TransferError::Stall,
        e.raw == 2 ==> error == TransferError::Cancelled,
        e.raw <= 0 || e.raw == 1 || e.raw == 22 ==> error == TransferError::Unknown(
            as_unsigned(e.raw) as u32,
        ),
{
    let errnos = ask(Errnos::host);
    proof {
        named_errnos(errnos);
        only_positive_errnos_have_names(errnos, e);
    }
    errnos.transfer_error(e)
}

/// The text that stands for the error number `code`.
pub fn format_os_error_code(code: u32) -> (text: String)
    ensures
        text@ == "errno "@ + decimal(code as nat),
{
    let mut text = String::from_str("errno ");
    push_decimal(&mut text, code);
    text
}

/// Each error number that has a meaning of its own has exactly that meaning.
pub proof fn named_errnos(errnos: Errnos)
    requires
        errnos.wf(),
    ensures
        errnos.meaning(Errno { raw: errnos.nodev }) == TransferError::Disconnected,
        errnos.meaning(Errno { raw: errnos.shutdown }) == TransferError::Disconnected,
        errnos.meaning(Errno { raw: errnos.pipe }) == TransferError::Stall,
        errnos.meaning(Errno { raw: errnos.noent }) == TransferError::Cancelled,
        errnos.meaning(Errno { raw: errnos.connreset }) == TransferError::Cancelled,
        errnos.meaning(Errno { raw: errnos.timedout }) == TransferError::Cancelled,
        errnos.meaning(Errno { raw: errnos.proto }) == TransferError::Fault,
        errnos.meaning(Errno { raw: errnos.ilseq }) == TransferError::Fault,
        errnos.meaning(Errno { raw: errnos.overflow }) == TransferError::Fault,
        errnos.meaning(Errno { raw: errnos.comm }) == TransferError::Fault,
        errnos.meaning(Errno { raw: errnos.time }) == TransferError::Fault,
        errnos.meaning(Errno { raw: errnos.inval }) == TransferError::Unknown(errnos.inval as u32),
        errnos.meaning(Errno { raw: errnos.perm }) == TransferError::Unknown(errnos.perm as u32),
{
    field_numbers(errnos);
}

/// A number that is not positive has no meaning of its own.
pub proof fn only_positive_errnos_have_names(errnos: Errnos, e: Errno)
    requires
        errnos.wf(),
    ensures
        e.raw <= 0 ==> errnos.meaning(e) == TransferError::Unknown(as_unsigned(e.raw) as u32),
{
    field_numbers(errnos);
}

/// Each field holds the number at its position.
proof fn field_numbers(errnos: Errnos)
    ensures
        ({
            let n = errnos.numbers();
            &&& n.len() == 13
            &&& n[0] == errnos.perm && n[1] == errnos.noent && n[2] == errnos.nodev
            &&& n[3] == errnos.inval && n[4] == errnos.pipe && n[5] == errnos.time
            &&& n[6] == errnos.comm && n[7] == errnos.proto && n[8] == errnos.overflow
            &&& n[9] == errnos.ilseq && n[10] == errnos.connreset
            &&& n[11] == errnos.shutdown && n[12] == errnos.timedout
        }),
{
}

/// Reading the sign bit as a value bit gives a number of 32 bits that differs by
/// two to the power of 32 if the sign bit is set, and not at all otherwise.
pub proof fn unsigned_keeps_bits(raw: i32)
    ensures
        0 <= as_unsigned(raw) <= u32::MAX,
        raw >= 0 ==> as_unsigned(raw) == raw,
        raw < 0 ==> as_unsigned(raw) - raw == 0x1_0000_0000,
{
}

/// Which error numbers mean what: each meaning belongs to its numbers and to no
/// others, and any other number is reported with its bits unchanged.
pub proof fn errnos_by_meaning(errnos: Errnos, e: Errno)
    requires
        errnos.wf(),
    ensures
        errnos.meaning(e) is Disconnected <==> e.raw == errnos.nodev || e.raw == errnos.shutdown,
        errnos.meaning(e) is Stall <==> e.raw == errnos.pipe,
        errnos.meaning(e) is Cancelled <==> e.raw == errnos.noent || e.raw == errnos.connreset
            || e.raw == errnos.timedout,
        errnos.meaning(e) is Fault <==> e.raw == errnos.proto || e.raw == errnos.ilseq || e.raw
            == errnos.overflow || e.raw == errnos.comm || e.raw == errnos.time,
        !(errnos.meaning(e) is InvalidArgument),
        errnos.meaning(e) matches TransferError::Unknown(code) ==> code == if e.raw >= 0 {
            e.raw as int
        } else {
            e.raw + 0x1_0000_0000
        },
{
    field_numbers(errnos);
}

/// The numbers of the system are those that were found, unchanged.
proof fn host_numbers_are_found(errnos: Errnos)
    requires
        errnos.is_host(),
    ensures
        call_ensures(host_errnos, (), errnos),
{
}

} // verus!
