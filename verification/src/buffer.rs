//! The memory that a transfer reads from or writes to.

use vstd::prelude::*;

use crate::errno::TransferError;

verus! {

/// Memory of a fixed size, of which the first `len` bytes hold data.
#[derive(Debug)]
pub struct Buffer {
    pub memory: Vec<u8>,
    pub len: u32,
    /// How many bytes a read into this buffer asks for.
    pub requested_len: u32,
}

/// A [`Buffer`] as a mathematical value.
pub ghost struct BufferView {
    pub memory: Seq<u8>,
    pub len: u32,
    pub requested_len: u32,
}

impl View for Buffer {
    type V = BufferView;

    open spec fn view(&self) -> BufferView {
        BufferView { memory: self.memory@, len: self.len, requested_len: self.requested_len }
    }
}

/// `memory` with `bytes` written over it from position `at` on.
pub open spec fn written_over(memory: Seq<u8>, at: int, bytes: Seq<u8>) -> Seq<u8> {
    Seq::new(
        memory.len(),
        |i: int|
            if at <= i < at + bytes.len() {
                bytes[i - at]
            } else {
                memory[i]
            },
    )
}

/// `n` bytes, all zero.
pub open spec fn zeros(n: nat) -> Seq<u8> {
    Seq::new(n, |i: int| 0u8)
}

impl BufferView {
    /// The data and the requested length fit the memory.
    pub open spec fn wf(self) -> bool {
        &&& self.len <= self.memory.len() <= u32::MAX
        &&& self.requested_len <= self.memory.len()
    }

    /// The bytes that hold data.
    pub open spec fn data(self) -> Seq<u8> {
        self.memory.take(self.len as int)
    }
}

impl Buffer {
    /// A buffer for a transfer of `transfer_len` bytes, holding no data yet.
    pub fn new(transfer_len: usize) -> (buffer: Buffer)
        requires
            transfer_len <= u32::MAX,
        ensures
            buffer@ == (BufferView {
                memory: zeros(transfer_len as nat),
                len: 0,
                requested_len: transfer_len as u32,
            }),
            buffer@.wf(),
    {
        let memory: Vec<u8> = vec![0u8; transfer_len];
        assert(memory@ =~= zeros(transfer_len as nat));
        Buffer { memory, len: 0, requested_len: transfer_len as u32 }
    }

    /// Writes `bytes` over the memory, from position `at` on.
    pub fn write_at(&mut self, at: usize, bytes: &[u8])
        requires
            at + bytes@.len() <= old(self)@.memory.len(),
        ensures
            final(self)@ == (BufferView {
                memory: written_over(old(self)@.memory, at as int, bytes@),
                ..old(self)@
            }),
    {
        let ghost before = self.memory@;
        let n: usize = bytes.len();
        let mut i: usize = 0;
        while i < n
            invariant
                i <= n,
                n == bytes@.len(),
                at + n <= self.memory.len(),
                self.memory@.len() == before.len(),
                self.len == old(self).len,
                self.requested_len == old(self).requested_len,
                self.memory@ =~= written_over(before, at as int, bytes@.take(i as int)),
            decreases n - i,
        {
            self.memory.set(at + i, bytes[i]);
            i = i + 1;
            assert(bytes@.take(i as int) =~= bytes@.take(i - 1).push(bytes@[i - 1]));
        }
        assert(bytes@.take(n as int) =~= bytes@);
    }

    /// Appends `bytes` to the data.
    pub fn extend_from_slice(&mut self, bytes: &[u8])
        requires
            old(self)@.wf(),
            old(self)@.len + bytes@.len() <= old(self)@.memory.len(),
        ensures
            final(self)@ == (BufferView {
                memory: written_over(old(self)@.memory, old(self)@.len as int, bytes@),
                len: (old(self)@.len + bytes@.len()) as u32,
                ..old(self)@
            }),
            final(self)@.data() == old(self)@.data() + bytes@,
            final(self)@.wf(),
    {
        let at: usize = self.len as usize;
        self.write_at(at, bytes);
        self.len = (at + bytes.len()) as u32;
        assert(self@.data() =~= old(self)@.data() + bytes@);
    }

    /// A copy of the first `n` bytes of the memory.
    pub fn prefix(&self, n: usize) -> (bytes: Vec<u8>)
        requires
            n <= self@.memory.len(),
        ensures
            bytes@ == self@.memory.take(n as int),
    {
        let mut bytes: Vec<u8> = Vec::with_capacity(n);
        let mut i: usize = 0;
        while i < n
            invariant
                i <= n <= self.memory@.len(),
                bytes@ =~= self.memory@.take(i as int),
            decreases n - i,
        {
            bytes.push(self.memory[i]);
            i = i + 1;
        }
        bytes
    }
}

/// The end of a transfer.
#[derive(Debug)]
pub struct Completion {
    /// The buffer of the transfer.
    pub buffer: Buffer,
    /// How many bytes were transferred.
    pub actual_len: usize,
    /// Whether the transfer succeeded.
    pub status: Result<(), TransferError>,
}

/// Bytes that are written over memory stand where they were written, and the
/// memory before and behind them stays as it was.
pub proof fn writing_over_replaces(memory: Seq<u8>, at: int, bytes: Seq<u8>)
    requires
        0 <= at,
        at + bytes.len() <= memory.len(),
    ensures
        written_over(memory, at, bytes) == memory.take(at) + bytes + memory.skip(
            at + bytes.len() as int,
        ),
{
    assert(written_over(memory, at, bytes) =~= memory.take(at) + bytes + memory.skip(
        at + bytes.len() as int,
    ));
}

/// So many bytes are all zero.
pub proof fn zeros_are_zero(n: nat)
    ensures
        zeros(n).len() == n,
        forall|i: int| 0 <= i < n ==> #[trigger] zeros(n)[i] == 0,
{
}

/// The data of a buffer are the first `len` bytes of its memory.
pub proof fn data_is_front_of_memory(buffer: BufferView)
    requires
        buffer.len <= buffer.memory.len(),
    ensures
        buffer.data().len() == buffer.len,
        forall|i: int| 0 <= i < buffer.len ==> #[trigger] buffer.data()[i] == buffer.memory[i],
{
}

/// A buffer is as it has to be if its data and what it asks for fit its memory,
/// and its memory can be counted with 32 bits.
pub proof fn fitting_buffers_are_wf(buffer: BufferView)
    ensures
        buffer.wf() <==> {
            &&& buffer.len <= buffer.memory.len()
            &&& buffer.requested_len <= buffer.memory.len()
            &&& buffer.memory.len() <= u32::MAX
        },
{
}

/// The mathematical value of a buffer has its memory and its two lengths.
pub proof fn buffer_view_is_faithful(buffer: Buffer)
    ensures
        buffer@.memory == buffer.memory@,
        buffer@.len == buffer.len,
        buffer@.requested_len == buffer.requested_len,
{
}

} // verus!
