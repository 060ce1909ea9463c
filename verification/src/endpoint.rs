//! An endpoint and the queue of its transfers, which complete in the order in
//! which they were submitted.

use std::collections::VecDeque;

use vstd::prelude::*;

use crate::buffer::{Buffer, BufferView, Completion};
use crate::errno::{named_errnos, Errno, Errnos, TransferError};
use crate::node::RawEndpoint;
use crate::transfer::{
    failed_transfer_returns_nothing, received_bytes_are_returned, request_is_for_the_whole_buffer,
    sent_buffer_is_returned, AioCodes, AioHandle, AioRequest, TransferData, TransferType, TransferView, UsbResult,
};
use crate::usb::{address_shows_direction, Direction};

verus! {

/// A submitted transfer.
#[derive(Debug)]
pub struct Pending {
    pub data: TransferData,
    /// Whether it has ended.
    pub complete: bool,
}

/// A [`Pending`] as a mathematical value.
pub ghost struct PendingView {
    pub data: TransferView,
    pub complete: bool,
}

impl View for Pending {
    type V = PendingView;

    open spec fn view(&self) -> PendingView {
        PendingView { data: self.data@, complete: self.complete }
    }
}

impl PendingView {
    /// A transfer that has ended says how; one that has not is carried by an
    /// asynchronous request.
    pub open spec fn wf(self) -> bool {
        &&& self.data.wf()
        &&& self.complete ==> self.data.status is Some
        &&& !self.complete ==> self.data.can_start_bulk()
    }
}

/// An endpoint that is in use.
#[derive(Debug)]
pub struct IllumosEndpoint {
    pub raw: RawEndpoint,
    /// The node for its data.
    pub fd: i32,
    /// The node for its status.
    pub stat_fd: i32,
    pub max_packet_size: usize,
    /// The transfers that were submitted and not yet taken back, the oldest one
    /// first.
    pub pending: VecDeque<Pending>,
    /// The transfer that was taken back last, to be used again.
    pub idle_transfer: Option<TransferData>,
}

/// An [`IllumosEndpoint`] as a mathematical value.
#[verifier::ext_equal]
pub ghost struct EndpointView {
    pub raw: RawEndpoint,
    pub fd: i32,
    pub stat_fd: i32,
    pub max_packet_size: usize,
    pub pending: Seq<PendingView>,
    pub idle: Option<TransferView>,
}

impl View for IllumosEndpoint {
    type V = EndpointView;

    open spec fn view(&self) -> EndpointView {
        EndpointView {
            raw: self.raw,
            fd: self.fd,
            stat_fd: self.stat_fd,
            max_packet_size: self.max_packet_size,
            pending: Seq::new(self.pending@.len(), |i: int| self.pending@[i]@),
            idle: match self.idle_transfer {
                Some(data) => Some(data@),
                None => None,
            },
        }
    }
}

/// The requests that carry the transfers of a queue, the newest transfer first.
pub open spec fn requests_newest_first(pending: Seq<PendingView>) -> Seq<AioHandle>
    decreases pending.len(),
{
    if pending.len() == 0 {
        Seq::empty()
    } else {
        let rest = requests_newest_first(pending.drop_last());
        match pending.last().data.aiocb {
            Some(handle) => seq![handle] + rest,
            None => rest,
        }
    }
}

impl EndpointView {
    /// An endpoint on which nothing was submitted yet.
    pub open spec fn opened(
        raw: RawEndpoint,
        fd: i32,
        stat_fd: i32,
        max_packet_size: usize,
    ) -> EndpointView {
        EndpointView { raw, fd, stat_fd, max_packet_size, pending: Seq::empty(), idle: None }
    }

    /// The transfers are as they have to be. An idle transfer has given its
    /// buffer back.
    pub open spec fn wf(self) -> bool {
        &&& forall|i: int| 0 <= i < self.pending.len() ==> (#[trigger] self.pending[i]).wf()
        &&& self.idle matches Some(data) ==> data.transfer is None
    }

    /// The transfer to use for `buffer`: the idle one as it stands if there is
    /// one, else a new one in the direction of the endpoint.
    pub open spec fn made_transfer(self, buffer: BufferView) -> TransferView {
        match self.idle {
            Some(data) => data,
            None => TransferView::fresh(
                match Direction::of_address(self.raw.address) {
                    Direction::In => TransferType::BulkIn,
                    Direction::Out => TransferType::BulkOut,
                },
                buffer,
            ),
        }
    }

    /// The endpoint after `buffer` was submitted.
    pub open spec fn after_submit(self, buffer: BufferView) -> EndpointView {
        EndpointView {
            pending: self.pending.push(
                PendingView {
                    data: TransferView {
                        raw_stat_fd: self.stat_fd,
                        ..self.made_transfer(buffer)
                    },
                    complete: false,
                },
            ),
            idle: None,
            ..self
        }
    }

    /// The endpoint after `buffer` was submitted as not valid.
    pub open spec fn after_submit_err(self, buffer: BufferView, errnos: Errnos) -> EndpointView {
        EndpointView {
            pending: self.pending.push(
                PendingView {
                    data: TransferView {
                        status: Some(Err(UsbResult::Errno(Errno { raw: errnos.inval }))),
                        ..self.made_transfer(buffer)
                    },
                    complete: true,
                },
            ),
            idle: None,
            ..self
        }
    }

    /// The endpoint after the request of the transfer at position `i` was handed
    /// to the system.
    pub open spec fn after_aio_submitted(
        self,
        i: int,
        handle: AioHandle,
        error: Option<Errno>,
    ) -> EndpointView {
        EndpointView {
            pending: self.pending.update(
                i,
                PendingView {
                    data: self.pending[i].data.submitted(handle, error),
                    complete: error is Some,
                },
            ),
            ..self
        }
    }

    /// The endpoint after the request of the transfer at position `i` ended.
    pub open spec fn after_aio_finished(
        self,
        i: int,
        status: Result<usize, UsbResult>,
        bytes: Seq<u8>,
    ) -> EndpointView {
        EndpointView {
            pending: self.pending.update(
                i,
                PendingView { data: self.pending[i].data.finished(status, bytes), complete: true },
            ),
            ..self
        }
    }

    /// Whether the oldest transfer has ended.
    pub open spec fn has_completion(self) -> bool {
        self.pending.len() > 0 && self.pending[0].complete
    }

    /// Whether a completion can be asked for: if the oldest transfer has ended,
    /// it has a buffer to give back.
    pub open spec fn can_poll(self) -> bool {
        self.has_completion() ==> self.pending[0].data.transfer is Some
    }

    /// The endpoint after a completion was asked for.
    pub open spec fn after_poll(self) -> EndpointView {
        if self.has_completion() {
            EndpointView {
                pending: self.pending.skip(1),
                idle: Some(self.pending[0].data.spent()),
                ..self
            }
        } else {
            self
        }
    }
}

impl IllumosEndpoint {
    /// Puts an endpoint to use.
    pub fn new(raw: RawEndpoint, fd: i32, stat_fd: i32, max_packet_size: usize) -> (endpoint:
        IllumosEndpoint)
        ensures
            endpoint@ == EndpointView::opened(raw, fd, stat_fd, max_packet_size),
            endpoint@.wf(),
    {
        let endpoint = IllumosEndpoint {
            raw,
            fd,
            stat_fd,
            max_packet_size,
            pending: VecDeque::new(),
            idle_transfer: None,
        };
        assert(endpoint@.pending =~= Seq::empty());
        endpoint
    }

    /// The address of the endpoint.
    pub fn endpoint_address(&self) -> (address: u8)
        ensures
            address == self@.raw.address,
            address == self.raw.address,
    {
        self.raw.address
    }

    /// How many transfers were submitted and not yet taken back.
    pub fn pending(&self) -> (count: usize)
        ensures
            count == self@.pending.len(),
            count == self.pending@.len(),
    {
        self.pending.len()
    }

    /// Whether a buffer can be submitted: the transfer that was taken back last
    /// has none to send or receive.
    pub fn can_submit(&self) -> (yes: bool)
        ensures
            yes == (self@.idle is None),
    {
        self.idle_transfer.is_none()
    }

    /// Whether a completion can be asked for.
    pub fn can_poll(&self) -> (yes: bool)
        ensures
            yes == self@.can_poll(),
    {
        if self.pending.len() > 0 {
            let front = &self.pending[0];
            !front.complete || front.data.transfer.is_some()
        } else {
            true
        }
    }

    /// The requests to cancel. They are cancelled in reverse order so that no
    /// transfer can complete before an older one.
    pub fn cancel_all(&self) -> (handles: Vec<AioHandle>)
        ensures
            handles@ == requests_newest_first(self@.pending),
    {
        let mut handles: Vec<AioHandle> = Vec::new();
        let mut i: usize = self.pending.len();
        let ghost all = self@.pending;
        assert(all.take(i as int) =~= all);
        while i > 0
            invariant
                i <= self.pending@.len(),
                all == self@.pending,
                requests_newest_first(all) =~= handles@ + requests_newest_first(
                    all.take(i as int),
                ),
            decreases i,
        {
            i = i - 1;
            let ghost rest = all.take(i + 1);
            assert(rest.drop_last() =~= all.take(i as int));
            assert(rest.last() == all[i as int]);
            if let Some(handle) = self.pending[i].data.cancel() {
                handles.push(handle);
            }
        }
        handles
    }

    /// Takes the transfer to use for `buffer`. An idle transfer is used as it
    /// stands, and `buffer` is dropped.
    pub fn make_transfer(&mut self, buffer: Buffer) -> (data: TransferData)
        ensures
            data@ == old(self)@.made_transfer(buffer@),
            final(self)@ == (EndpointView { idle: None, ..old(self)@ }),
    {
        match self.idle_transfer.take() {
            Some(data) => data,
            None => match Direction::from_address(self.raw.address) {
                Direction::In => TransferData::new_bulk_in(buffer),
                Direction::Out => TransferData::new_bulk_out(buffer),
            },
        }
    }

    /// Submits `buffer`, and gives the request to hand to the system for it.
    /// What became of the request is then told to `aio_submitted`.
    pub fn submit(&mut self, buffer: Buffer, codes: &AioCodes) -> (request: AioRequest)
        requires
            old(self)@.wf(),
            old(self)@.idle is None,
            buffer@.wf(),
        ensures
            final(self)@ == old(self)@.after_submit(buffer@),
            final(self)@.wf(),
            request.carries(
                old(self)@.made_transfer(buffer@).transfer->0,
                old(self)@.fd,
                *codes,
            ),
            request.fildes == old(self).fd,
            old(self).raw.address < 0x80 ==> {
                &&& request.direction is Out
                &&& request.lio_opcode == codes.lio_write
                &&& request.data@ == buffer.memory@.take(buffer.len as int)
            },
            old(self).raw.address >= 0x80 ==> {
                &&& request.direction is In
                &&& request.lio_opcode == codes.lio_read
                &&& request.data@.len() == buffer.requested_len
                &&& request.data@ == buffer.memory@.take(buffer.requested_len as int)
            },
    {
        let mut data = self.make_transfer(buffer);
        let request = data.start_bulk(self.fd, self.stat_fd, codes);
        self.pending.push_back(Pending { data, complete: false });
        assert(self@ =~= old(self)@.after_submit(buffer@));
        request
    }

    /// Submits `buffer` as not valid, which completes at once. The only such
    /// `error` is an invalid argument.
    pub fn submit_err(&mut self, buffer: Buffer, error: TransferError, errnos: &Errnos)
        requires
            old(self)@.wf(),
            buffer@.wf(),
            error == TransferError::InvalidArgument,
        ensures
            final(self)@ == old(self)@.after_submit_err(buffer@, *errnos),
            final(self)@.wf(),
    {
        let mut data = self.make_transfer(buffer);
        data.status = Some(Err(UsbResult::Errno(Errno::from_raw_os_error(errnos.inval))));
        self.pending.push_back(Pending { data, complete: true });
        assert(self@ =~= old(self)@.after_submit_err(buffer@, *errnos));
    }

    /// The request of the transfer at position `i` of the queue was handed to
    /// the system, which refused it if there is an `error`.
    pub fn aio_submitted(&mut self, i: usize, handle: AioHandle, error: Option<Errno>)
        requires
            old(self)@.wf(),
            i < old(self)@.pending.len(),
            !old(self)@.pending[i as int].complete,
        ensures
            final(self)@ == old(self)@.after_aio_submitted(i as int, handle, error),
            final(self)@.wf(),
    {
        let ghost before = self.pending@;
        assert(self@.pending[i as int].wf());
        let mut pending = self.pending.remove(i).unwrap();
        pending.data.aio_submitted(handle, error);
        pending.complete = error.is_some();
        self.pending.insert(i, pending);
        assert(self.pending@ =~= before.update(i as int, pending));
        assert(self@ =~= old(self)@.after_aio_submitted(i as int, handle, error));
    }

    /// The request of the transfer at position `i` of the queue ended with
    /// `status` and left `bytes` in the memory that it was for.
    pub fn aio_finished(&mut self, i: usize, status: Result<usize, UsbResult>, bytes: &[u8])
        requires
            old(self)@.wf(),
            i < old(self)@.pending.len(),
            !old(self)@.pending[i as int].complete,
            old(self)@.pending[i as int].data.admits(status, bytes@),
        ensures
            final(self)@ == old(self)@.after_aio_finished(i as int, status, bytes@),
            final(self)@.wf(),
    {
        let ghost before = self.pending@;
        assert(self@.pending[i as int].wf());
        let mut pending = self.pending.remove(i).unwrap();
        pending.data.aio_finished(status, bytes);
        pending.complete = true;
        self.pending.insert(i, pending);
        assert(self.pending@ =~= before.update(i as int, pending));
        assert(self@ =~= old(self)@.after_aio_finished(i as int, status, bytes@));
    }

    /// Takes back the oldest transfer, if it has ended.
    pub fn poll_next_complete<U: Fn(u32) -> TransferError>(
        &mut self,
        errnos: &Errnos,
        ugen_to_transfer_error: U,
    ) -> (completion: Option<Completion>)
        requires
            old(self)@.wf(),
            old(self)@.can_poll(),
            old(self)@.has_completion() ==> (old(self)@.pending[0].data.status matches Some(Err(e))
                ==> e.has_meaning(ugen_to_transfer_error)),
        ensures
            final(self)@ == old(self)@.after_poll(),
            final(self)@.wf(),
            completion is Some <==> old(self)@.has_completion(),
            completion matches Some(c) ==> {
                let data = old(self)@.pending[0].data;
                &&& match data.status {
                    Some(Err(e)) => c.status matches Err(error) && e.means(
                        error,
                        *errnos,
                        ugen_to_transfer_error,
                    ),
                    _ => c.status == Ok::<(), TransferError>(()),
                }
                &&& c.actual_len == data.actual_len()
                &&& c.buffer@ == data.returned_buffer()
                &&& c.buffer@.wf()
                &&& c.actual_len == match data.status {
                    Some(Ok(n)) => n,
                    _ => 0,
                }
                &&& c.buffer@.memory == data.transfer->0.buffer.memory
                &&& c.buffer@.len == if data.transfer->0.kind is BulkIn {
                    c.actual_len as int
                } else {
                    data.transfer->0.buffer.len as int
                }
            },
    {
        if self.pending.len() == 0 || !self.pending[0].complete {
            return None;
        }
        assert(self@.pending[0].wf());
        let mut transfer = self.pending.pop_front().unwrap().data;
        let completion = transfer.take_completion(errnos, ugen_to_transfer_error);
        self.idle_transfer = Some(transfer);
        assert(self@ =~= old(self)@.after_poll());
        assert forall|i: int| 0 <= i < self@.pending.len() implies (
        #[trigger] self@.pending[i]).wf() by {
            assert(old(self)@.pending[i + 1].wf());
        }
        Some(completion)
    }
}

/// The endpoint after `n` completions were asked for.
pub open spec fn after_polls(endpoint: EndpointView, n: nat) -> EndpointView
    decreases n,
{
    if n == 0 {
        endpoint
    } else {
        after_polls(endpoint, (n - 1) as nat).after_poll()
    }
}

/// Transfers are taken back in the order in which they were submitted: when the
/// oldest `n` have ended, asking for a completion `n` times takes back these and
/// leaves the others in their order.
pub proof fn completions_come_in_order(endpoint: EndpointView, n: nat)
    requires
        n <= endpoint.pending.len(),
        forall|i: int| 0 <= i < n ==> (#[trigger] endpoint.pending[i]).complete,
    ensures
        after_polls(endpoint, n).pending == endpoint.pending.skip(n as int),
        n > 0 ==> after_polls(endpoint, n).idle == Some(endpoint.pending[n - 1].data.spent()),
    decreases n,
{
    if n == 0 {
        assert(endpoint.pending.skip(0) =~= endpoint.pending);
    } else {
        completions_come_in_order(endpoint, (n - 1) as nat);
        assert(endpoint.pending.skip(n - 1).skip(1) =~= endpoint.pending.skip(n as int));
    }
}

/// A transfer that ends before the oldest one has to wait for it: nothing is
/// taken back.
pub proof fn later_completion_waits(
    endpoint: EndpointView,
    i: int,
    status: Result<usize, UsbResult>,
    bytes: Seq<u8>,
)
    requires
        0 < i < endpoint.pending.len(),
        !endpoint.pending[0].complete,
    ensures
        !endpoint.after_aio_finished(i, status, bytes).has_completion(),
        endpoint.after_aio_finished(i, status, bytes).after_poll() == endpoint.after_aio_finished(
            i,
            status,
            bytes,
        ),
{
}

/// A submitted buffer comes back once the transfers before it have been taken
/// back and its own request has ended, with the outcome of that request.
pub proof fn submitted_buffer_comes_back(
    endpoint: EndpointView,
    buffer: BufferView,
    handle: AioHandle,
    status: Result<usize, UsbResult>,
    bytes: Seq<u8>,
)
    requires
        endpoint.wf(),
        endpoint.idle is None,
        forall|i: int| 0 <= i < endpoint.pending.len() ==> (#[trigger] endpoint.pending[i]).complete,
        buffer.wf(),
        endpoint.made_transfer(buffer).admits(status, bytes),
    ensures
        ({
            let n = endpoint.pending.len();
            let end = after_polls(
                endpoint.after_submit(buffer).after_aio_submitted(
                    n as int,
                    handle,
                    None,
                ).after_aio_finished(n as int, status, bytes),
                n,
            );
            &&& end.pending.len() == 1
            &&& end.has_completion()
            &&& end.can_poll()
            &&& end.pending[0].data.status == Some(status)
            &&& status matches Ok(sent) ==> end.pending[0].data.actual_len() == sent
            &&& match Direction::of_address(endpoint.raw.address) {
                Direction::In => end.pending[0].data.returned_buffer().data() == match status {
                    Ok(received) => bytes.take(received as int),
                    Err(_) => Seq::empty(),
                },
                Direction::Out => end.pending[0].data.returned_buffer() == buffer,
            }
        }),
{
    let n = endpoint.pending.len();
    let submitted = endpoint.after_submit(buffer);
    let started = submitted.after_aio_submitted(n as int, handle, None);
    let finished = started.after_aio_finished(n as int, status, bytes);
    assert forall|i: int| 0 <= i < n implies (#[trigger] finished.pending[i]).complete by {
        assert(finished.pending[i] == endpoint.pending[i]);
    }
    completions_come_in_order(finished, n);
    let end = after_polls(finished, n);
    assert(end.pending[0] == finished.pending[n as int]);
    let before = started.pending[n as int].data;
    if Direction::of_address(endpoint.raw.address) is In {
        match status {
            Ok(received) => received_bytes_are_returned(buffer, before, received, bytes),
            Err(failure) => failed_transfer_returns_nothing(before, failure, bytes),
        }
    } else {
        sent_buffer_is_returned(buffer, before, status, bytes);
    }
}

/// `buffer` as it comes back when nothing was transferred on an endpoint with the
/// given address: unchanged, but without data if it was to receive.
pub open spec fn untransferred(buffer: BufferView, address: u8) -> BufferView {
    match Direction::of_address(address) {
        Direction::In => BufferView { len: 0, ..buffer },
        Direction::Out => buffer,
    }
}

/// A submitted buffer whose request the system refuses comes back once the
/// transfers before it have been taken back, with the error of the system and
/// with nothing transferred.
pub proof fn refused_buffer_comes_back(
    endpoint: EndpointView,
    buffer: BufferView,
    handle: AioHandle,
    error: Errno,
)
    requires
        endpoint.idle is None,
        forall|i: int| 0 <= i < endpoint.pending.len() ==> (#[trigger] endpoint.pending[i]).complete,
    ensures
        ({
            let n = endpoint.pending.len();
            let end = after_polls(
                endpoint.after_submit(buffer).after_aio_submitted(n as int, handle, Some(error)),
                n,
            );
            &&& end.pending.len() == 1
            &&& end.has_completion()
            &&& end.can_poll()
            &&& end.pending[0].data.status == Some(Err::<usize, UsbResult>(UsbResult::Errno(error)))
            &&& end.pending[0].data.actual_len() == 0
            &&& end.pending[0].data.returned_buffer() == untransferred(buffer, endpoint.raw.address)
        }),
{
    let n = endpoint.pending.len();
    let refused = endpoint.after_submit(buffer).after_aio_submitted(n as int, handle, Some(error));
    assert forall|i: int| 0 <= i < n implies (#[trigger] refused.pending[i]).complete by {
        assert(refused.pending[i] == endpoint.pending[i]);
    }
    completions_come_in_order(refused, n);
    assert(after_polls(refused, n).pending[0] == refused.pending[n as int]);
}

/// A buffer that was submitted as not valid comes back once the transfers before
/// it have been taken back, with the error number for an invalid argument and
/// with nothing transferred.
pub proof fn invalid_submission_comes_back(
    endpoint: EndpointView,
    buffer: BufferView,
    errnos: Errnos,
)
    requires
        endpoint.idle is None,
        forall|i: int| 0 <= i < endpoint.pending.len() ==> (#[trigger] endpoint.pending[i]).complete,
        errnos.wf(),
    ensures
        ({
            let n = endpoint.pending.len();
            let end = after_polls(endpoint.after_submit_err(buffer, errnos), n);
            &&& end.pending.len() == 1
            &&& end.has_completion()
            &&& end.can_poll()
            &&& end.pending[0].data.status == Some(
                Err::<usize, UsbResult>(UsbResult::Errno(Errno { raw: errnos.inval })),
            )
            &&& errnos.meaning(Errno { raw: errnos.inval }) == TransferError::Unknown(
                errnos.inval as u32,
            )
            &&& end.pending[0].data.actual_len() == 0
            &&& end.pending[0].data.returned_buffer() == untransferred(buffer, endpoint.raw.address)
        }),
{
    let n = endpoint.pending.len();
    let submitted = endpoint.after_submit_err(buffer, errnos);
    assert forall|i: int| 0 <= i < n implies (#[trigger] submitted.pending[i]).complete by {
        assert(submitted.pending[i] == endpoint.pending[i]);
    }
    completions_come_in_order(submitted, n);
    assert(after_polls(submitted, n).pending[0] == submitted.pending[n as int]);
    named_errnos(errnos);
}

/// A transfer that was taken back has no buffer any more: none to start with,
/// and none to give back if it is submitted as not valid.
pub proof fn taken_transfer_has_no_buffer(
    endpoint: EndpointView,
    buffer: BufferView,
    errnos: Errnos,
)
    requires
        endpoint.has_completion(),
    ensures
        endpoint.after_poll().idle is Some,
        !endpoint.after_poll().made_transfer(buffer).can_start_bulk(),
        endpoint.after_poll().after_submit_err(buffer, errnos).pending.last().data.transfer is None,
{
}

/// Submitting leaves the queue before it as it is, and what happens to the
/// request of one transfer touches no other transfer.
pub proof fn transfers_are_independent(
    endpoint: EndpointView,
    buffer: BufferView,
    errnos: Errnos,
    i: int,
    j: int,
    handle: AioHandle,
    error: Option<Errno>,
    status: Result<usize, UsbResult>,
    bytes: Seq<u8>,
)
    requires
        0 <= i < endpoint.pending.len(),
        0 <= j < endpoint.pending.len(),
        i != j,
    ensures
        endpoint.after_submit(buffer).pending.drop_last() == endpoint.pending,
        endpoint.after_submit_err(buffer, errnos).pending.drop_last() == endpoint.pending,
        endpoint.after_aio_submitted(i, handle, error).pending[j] == endpoint.pending[j],
        endpoint.after_aio_finished(i, status, bytes).pending[j] == endpoint.pending[j],
{
    assert(endpoint.after_submit(buffer).pending.drop_last() =~= endpoint.pending);
    assert(endpoint.after_submit_err(buffer, errnos).pending.drop_last() =~= endpoint.pending);
}

/// Whether the requests at positions `k` and `l` of `handles` carry transfers of
/// `pending`, the one at `k` a newer one than that at `l`.
pub open spec fn carried_newer(
    pending: Seq<PendingView>,
    handles: Seq<AioHandle>,
    k: int,
    l: int,
) -> bool {
    exists|i: int, j: int|
        #![trigger pending[i], pending[j]]
        0 <= j < i < pending.len() && pending[i].data.aiocb == Some(handles[k])
            && pending[j].data.aiocb == Some(handles[l])
}

/// All requests under way are cancelled, no others, and each before those of
/// older transfers.
pub proof fn cancellation_is_newest_first(pending: Seq<PendingView>)
    ensures
        forall|i: int|
            0 <= i < pending.len() && (#[trigger] pending[i]).data.aiocb is Some
                ==> requests_newest_first(pending).contains(pending[i].data.aiocb->0),
        forall|k: int|
            0 <= k < requests_newest_first(pending).len() ==> exists|i: int|
                0 <= i < pending.len() && (#[trigger] pending[i]).data.aiocb == Some(
                    #[trigger] requests_newest_first(pending)[k],
                ),
        forall|k: int, l: int|
            0 <= k < l < requests_newest_first(pending).len() ==> #[trigger] carried_newer(
                pending,
                requests_newest_first(pending),
                k,
                l,
            ),
    decreases pending.len(),
{
    let all = requests_newest_first(pending);
    if pending.len() > 0 {
        let older = pending.drop_last();
        let rest = requests_newest_first(older);
        cancellation_is_newest_first(older);
        let newest = pending.last();
        let shift: int = if newest.data.aiocb is Some {
            1
        } else {
            0
        };
        assert(forall|k: int| 0 <= k < rest.len() ==> all[k + shift] == #[trigger] rest[k]);
        assert forall|i: int|
            0 <= i < pending.len() && (#[trigger] pending[i]).data.aiocb is Some implies all.contains(
            pending[i].data.aiocb->0,
        ) by {
            if i < older.len() {
                assert(older[i] == pending[i]);
                assert(rest.contains(pending[i].data.aiocb->0));
                let k = choose|k: int| 0 <= k < rest.len() && rest[k] == pending[i].data.aiocb->0;
                assert(all[k + shift] == rest[k]);
            } else {
                assert(all[0] == newest.data.aiocb->0);
            }
        }
        assert forall|k: int| 0 <= k < all.len() implies exists|i: int|
            0 <= i < pending.len() && (#[trigger] pending[i]).data.aiocb == Some(
                #[trigger] all[k],
            ) by {
            if k < shift {
                assert(pending[pending.len() - 1].data.aiocb == Some(all[k]));
            } else {
                assert(all[k] == rest[k - shift]);
                let i = choose|i: int|
                    0 <= i < older.len() && (#[trigger] older[i]).data.aiocb == Some(
                        rest[k - shift],
                    );
                assert(pending[i] == older[i]);
            }
        }
        assert forall|k: int, l: int| 0 <= k < l < all.len() implies #[trigger] carried_newer(
            pending,
            all,
            k,
            l,
        ) by {
            if k < shift {
                assert(all[l] == rest[l - shift]);
                let j = choose|j: int|
                    0 <= j < older.len() && (#[trigger] older[j]).data.aiocb == Some(
                        rest[l - shift],
                    );
                assert(pending[j] == older[j]);
                assert(pending[pending.len() - 1].data.aiocb == Some(all[k]));
            } else {
                assert(all[k] == rest[k - shift] && all[l] == rest[l - shift]);
                assert(carried_newer(older, rest, k - shift, l - shift));
                let (i, j) = choose|i: int, j: int|
                    #![trigger older[i], older[j]]
                    0 <= j < i < older.len() && older[i].data.aiocb == Some(rest[k - shift])
                        && older[j].data.aiocb == Some(rest[l - shift]);
                assert(pending[i] == older[i] && pending[j] == older[j]);
            }
        }
    }
}

/// A submitted buffer is queued behind the others as a transfer in the direction
/// of the endpoint, with its status node, and nothing else of the endpoint
/// changes.
pub proof fn submitted_buffer_is_queued(endpoint: EndpointView, buffer: BufferView)
    requires
        endpoint.idle is None,
    ensures
        ({
            let after = endpoint.after_submit(buffer);
            let queued = after.pending.last();
            &&& after.pending.len() == endpoint.pending.len() + 1
            &&& after.pending.drop_last() == endpoint.pending
            &&& !queued.complete
            &&& queued.data.status is None
            &&& queued.data.aiocb is None
            &&& queued.data.raw_stat_fd == endpoint.stat_fd
            &&& queued.data.transfer matches Some(parts) && parts.buffer == buffer && (
            parts.kind is BulkIn <==> endpoint.raw.address & 0x80 != 0) && (parts.kind is BulkOut
                <==> endpoint.raw.address & 0x80 == 0)
            &&& after.idle is None
            &&& after.raw == endpoint.raw
            &&& after.fd == endpoint.fd
            &&& after.stat_fd == endpoint.stat_fd
            &&& after.max_packet_size == endpoint.max_packet_size
        }),
{
    address_shows_direction(endpoint.raw.address);
    assert(endpoint.after_submit(buffer).pending.drop_last() =~= endpoint.pending);
}

/// A buffer that is submitted as not valid is queued behind the others as a
/// transfer that has failed, and nothing else of the endpoint changes.
pub proof fn invalid_buffer_is_queued(endpoint: EndpointView, buffer: BufferView, errnos: Errnos)
    requires
        endpoint.idle is None,
    ensures
        ({
            let after = endpoint.after_submit_err(buffer, errnos);
            let queued = after.pending.last();
            &&& after.pending.len() == endpoint.pending.len() + 1
            &&& after.pending.drop_last() == endpoint.pending
            &&& queued.complete
            &&& queued.data.status == Some(
                Err::<usize, UsbResult>(UsbResult::Errno(Errno { raw: errnos.inval })),
            )
            &&& queued.data.aiocb is None
            &&& queued.data.transfer matches Some(parts) && parts.buffer == buffer && (
            parts.kind is BulkIn <==> endpoint.raw.address & 0x80 != 0) && (parts.kind is BulkOut
                <==> endpoint.raw.address & 0x80 == 0)
            &&& after.idle is None
            &&& after.raw == endpoint.raw
            &&& after.fd == endpoint.fd
            &&& after.stat_fd == endpoint.stat_fd
            &&& after.max_packet_size == endpoint.max_packet_size
        }),
{
    address_shows_direction(endpoint.raw.address);
    assert(endpoint.after_submit_err(buffer, errnos).pending.drop_last() =~= endpoint.pending);
}

/// An idle transfer is used as it stands, whatever the buffer.
pub proof fn idle_transfer_is_used(endpoint: EndpointView, buffer: BufferView, idle: TransferView)
    requires
        endpoint.idle == Some(idle),
    ensures
        endpoint.made_transfer(buffer) == idle,
        endpoint.after_submit(buffer).idle is None,
        endpoint.after_submit(buffer).pending.last().data.transfer == idle.transfer,
{
}

/// Handing the request of a transfer to the system records its handle with that
/// transfer. The transfer has ended only if the system refused the request, and
/// then with that error. Nothing else of the endpoint changes.
pub proof fn handing_over_is_recorded(
    endpoint: EndpointView,
    i: int,
    handle: AioHandle,
    error: Option<Errno>,
)
    requires
        0 <= i < endpoint.pending.len(),
    ensures
        ({
            let after = endpoint.after_aio_submitted(i, handle, error);
            let (old_one, new_one) = (endpoint.pending[i], after.pending[i]);
            &&& after.pending.len() == endpoint.pending.len()
            &&& forall|j: int|
                0 <= j < endpoint.pending.len() && j != i ==> #[trigger] after.pending[j]
                    == endpoint.pending[j]
            &&& new_one.data.aiocb == Some(handle)
            &&& new_one.complete <==> error is Some
            &&& error is None ==> new_one.data.status == old_one.data.status
            &&& error matches Some(e) ==> new_one.data.status == Some(
                Err::<usize, UsbResult>(UsbResult::Errno(e)),
            )
            &&& new_one.data.transfer == old_one.data.transfer
            &&& new_one.data.raw_stat_fd == old_one.data.raw_stat_fd
            &&& after.idle == endpoint.idle
            &&& after.raw == endpoint.raw
            &&& after.fd == endpoint.fd
            &&& after.stat_fd == endpoint.stat_fd
            &&& after.max_packet_size == endpoint.max_packet_size
        }),
{
}

/// The end of the request of a transfer is recorded with that transfer, which has
/// then ended and is no longer to be cancelled. Nothing else of the endpoint
/// changes.
pub proof fn end_is_recorded(
    endpoint: EndpointView,
    i: int,
    status: Result<usize, UsbResult>,
    bytes: Seq<u8>,
)
    requires
        0 <= i < endpoint.pending.len(),
    ensures
        ({
            let after = endpoint.after_aio_finished(i, status, bytes);
            &&& after.pending.len() == endpoint.pending.len()
            &&& forall|j: int|
                0 <= j < endpoint.pending.len() && j != i ==> #[trigger] after.pending[j]
                    == endpoint.pending[j]
            &&& after.pending[i].complete
            &&& after.pending[i].data.status == Some(status)
            &&& after.pending[i].data.aiocb is None
            &&& after.pending[i].data.raw_stat_fd == endpoint.pending[i].data.raw_stat_fd
            &&& after.idle == endpoint.idle
            &&& after.raw == endpoint.raw
            &&& after.fd == endpoint.fd
            &&& after.stat_fd == endpoint.stat_fd
            &&& after.max_packet_size == endpoint.max_packet_size
        }),
{
}

/// Asking for a completion takes back the oldest transfer if it has ended, and
/// changes nothing otherwise. It can be asked for unless that transfer has no
/// buffer.
pub proof fn oldest_transfer_is_taken_back(endpoint: EndpointView)
    ensures
        endpoint.pending.len() == 0 || !endpoint.pending[0].complete ==> {
            &&& !endpoint.has_completion()
            &&& endpoint.can_poll()
            &&& endpoint.after_poll() == endpoint
        },
        endpoint.pending.len() > 0 && endpoint.pending[0].complete ==> {
            &&& endpoint.has_completion()
            &&& endpoint.can_poll() <==> endpoint.pending[0].data.transfer is Some
            &&& endpoint.after_poll().pending == endpoint.pending.drop_first()
            &&& endpoint.after_poll().idle matches Some(idle) && idle.transfer is None
                && idle.status is None
            &&& endpoint.after_poll().raw == endpoint.raw
            &&& endpoint.after_poll().fd == endpoint.fd
            &&& endpoint.after_poll().stat_fd == endpoint.stat_fd
            &&& endpoint.after_poll().max_packet_size == endpoint.max_packet_size
        },
{
    assert(endpoint.pending.len() > 0 ==> endpoint.pending.skip(1)
        =~= endpoint.pending.drop_first());
}

/// A transfer that was submitted, in either direction, and whose request was
/// handed to the system is the first to be cancelled.
pub proof fn submitted_request_is_cancelled(
    endpoint: EndpointView,
    buffer: BufferView,
    handle: AioHandle,
)
    ensures
        ({
            let n = endpoint.pending.len() as int;
            let started = endpoint.after_submit(buffer).after_aio_submitted(n, handle, None);
            let handles = requests_newest_first(started.pending);
            &&& handles.len() > 0
            &&& handles[0] == handle
            &&& handles.contains(handle)
            &&& handles.drop_first() == requests_newest_first(endpoint.pending)
        }),
{
    let n = endpoint.pending.len() as int;
    let started = endpoint.after_submit(buffer).after_aio_submitted(n, handle, None);
    let handles = requests_newest_first(started.pending);
    assert(started.pending.drop_last() =~= endpoint.pending);
    assert(started.pending.last().data.aiocb == Some(handle));
    assert(handles[0] == handle);
    assert(handles.drop_first() =~= requests_newest_first(endpoint.pending));
}

/// A request that was handed to the system is cancelled with the others until it
/// has ended, whatever else happens on the endpoint: other buffers are submitted,
/// other requests are handed over or end, other transfers are taken back.
pub proof fn request_is_cancelled_until_it_ends(
    endpoint: EndpointView,
    i: int,
    handle: AioHandle,
    buffer: BufferView,
    errnos: Errnos,
    j: int,
    other: AioHandle,
    error: Option<Errno>,
    status: Result<usize, UsbResult>,
    bytes: Seq<u8>,
)
    requires
        0 <= i < endpoint.pending.len(),
        !endpoint.pending[i].complete,
        endpoint.pending[i].data.aiocb == Some(handle),
        0 <= j < endpoint.pending.len(),
        j != i,
    ensures
        requests_newest_first(endpoint.pending).contains(handle),
        requests_newest_first(endpoint.after_submit(buffer).pending).contains(handle),
        requests_newest_first(endpoint.after_submit_err(buffer, errnos).pending).contains(handle),
        requests_newest_first(endpoint.after_aio_submitted(j, other, error).pending).contains(
            handle,
        ),
        requests_newest_first(endpoint.after_aio_finished(j, status, bytes).pending).contains(
            handle,
        ),
        requests_newest_first(endpoint.after_poll().pending).contains(handle),
        endpoint.after_aio_finished(i, status, bytes).pending[i].data.aiocb is None,
{
    cancellation_is_newest_first(endpoint.pending);
    let submitted = endpoint.after_submit(buffer).pending;
    cancellation_is_newest_first(submitted);
    assert(submitted[i] == endpoint.pending[i]);
    let invalid = endpoint.after_submit_err(buffer, errnos).pending;
    cancellation_is_newest_first(invalid);
    assert(invalid[i] == endpoint.pending[i]);
    let handed = endpoint.after_aio_submitted(j, other, error).pending;
    cancellation_is_newest_first(handed);
    assert(handed[i] == endpoint.pending[i]);
    let ended = endpoint.after_aio_finished(j, status, bytes).pending;
    cancellation_is_newest_first(ended);
    assert(ended[i] == endpoint.pending[i]);
    let polled = endpoint.after_poll().pending;
    cancellation_is_newest_first(polled);
    let k: int = if endpoint.has_completion() {
        i - 1
    } else {
        i
    };
    assert(polled[k] == endpoint.pending[i]);
}

/// An endpoint that was just put to use has its nodes and nothing queued.
pub proof fn opened_endpoint_is_empty(
    raw: RawEndpoint,
    fd: i32,
    stat_fd: i32,
    max_packet_size: usize,
)
    ensures
        ({
            let endpoint = EndpointView::opened(raw, fd, stat_fd, max_packet_size);
            &&& endpoint.raw == raw
            &&& endpoint.fd == fd
            &&& endpoint.stat_fd == stat_fd
            &&& endpoint.max_packet_size == max_packet_size
            &&& endpoint.pending.len() == 0
            &&& endpoint.idle is None
        }),
{
}

/// The mathematical value of an endpoint has all its parts, and its queue in
/// order.
pub proof fn endpoint_view_is_faithful(endpoint: IllumosEndpoint)
    ensures
        endpoint@.raw == endpoint.raw,
        endpoint@.fd == endpoint.fd,
        endpoint@.stat_fd == endpoint.stat_fd,
        endpoint@.max_packet_size == endpoint.max_packet_size,
        endpoint@.pending.len() == endpoint.pending@.len(),
        forall|i: int|
            0 <= i < endpoint.pending@.len() ==> {
                &&& (#[trigger] endpoint@.pending[i]).data == endpoint.pending@[i].data@
                &&& endpoint@.pending[i].complete == endpoint.pending@[i].complete
            },
        endpoint.idle_transfer is None ==> endpoint@.idle is None,
        endpoint.idle_transfer matches Some(data) ==> endpoint@.idle == Some(data@),
{
}

/// The request for a buffer that is submitted to an endpoint that sends is a write
/// of all the data of that buffer; the request for one that is submitted to an
/// endpoint that receives is a read of as many bytes as the buffer asks for. Both
/// are for the data node of the endpoint.
pub proof fn submitted_buffer_is_requested_whole(
    endpoint: EndpointView,
    buffer: BufferView,
    request: AioRequest,
    codes: AioCodes,
)
    requires
        endpoint.idle is None,
        buffer.wf(),
        request.carries(endpoint.made_transfer(buffer).transfer->0, endpoint.fd, codes),
    ensures
        endpoint.raw.address & 0x80 == 0 ==> {
            &&& request.direction is Out
            &&& request.lio_opcode == codes.lio_write
            &&& request.data@.len() == buffer.len
            &&& forall|i: int| 0 <= i < buffer.len ==> #[trigger] request.data@[i]
                == buffer.memory[i]
        },
        endpoint.raw.address & 0x80 != 0 ==> {
            &&& request.direction is In
            &&& request.lio_opcode == codes.lio_read
            &&& request.data@.len() == buffer.requested_len
        },
        request.fildes == endpoint.fd,
{
    address_shows_direction(endpoint.raw.address);
    let kind = endpoint.made_transfer(buffer).transfer->0.kind;
    request_is_for_the_whole_buffer(request, kind, buffer, endpoint.fd, codes);
}

} // verus!
