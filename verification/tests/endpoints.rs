use illumos_ugen::buffer::Buffer;
use illumos_ugen::descriptor::TransferType;
use illumos_ugen::endpoint::IllumosEndpoint;
use illumos_ugen::errno::{Errno, Errnos, TransferError};
use illumos_ugen::node::RawEndpoint;
use illumos_ugen::transfer::{AioCodes, AioHandle, UsbResult};
use illumos_ugen::usb::Direction;

fn ugen(code: u32) -> TransferError {
    TransferError::Unknown(1000 + code)
}

fn open(address: u8) -> IllumosEndpoint {
    let raw = RawEndpoint {
        interface_number: 1,
        address,
        transfer_type: TransferType::Bulk,
        direction: Direction::from_address(address),
    };
    IllumosEndpoint::new(raw, 20, 21, 512)
}

fn handle(block: usize) -> AioHandle {
    AioHandle { fildes: 20, block }
}

fn filled(bytes: &[u8]) -> Buffer {
    let mut buffer = Buffer::new(bytes.len());
    buffer.extend_from_slice(bytes);
    buffer
}

#[test]
fn a_fresh_endpoint_has_nothing_pending() {
    let mut endpoint = open(0x81);
    assert_eq!(endpoint.endpoint_address(), 0x81);
    assert_eq!(endpoint.max_packet_size, 512);
    assert_eq!(endpoint.pending(), 0);
    assert!(endpoint.can_submit());
    assert!(endpoint.can_poll());
    assert!(endpoint.cancel_all().is_empty());
    assert!(endpoint.poll_next_complete(&Errnos::host(), ugen).is_none());
}

#[test]
fn requests_go_to_the_nodes_of_the_endpoint() {
    let codes = AioCodes::host();
    let mut input = open(0x82);
    let request = input.submit(Buffer::new(16), &codes);
    assert_eq!(request.direction, Direction::In);
    assert_eq!(request.fildes, 20);
    assert_eq!(request.data.len(), 16);
    assert_eq!(input.pending[0].data.raw_stat_fd, 21);
    let mut output = open(0x02);
    let request = output.submit(filled(&[1, 2, 3]), &codes);
    assert_eq!(request.direction, Direction::Out);
    assert_eq!(request.data, vec![1, 2, 3]);
}

#[test]
fn completions_come_in_the_order_of_submission() {
    let codes = AioCodes::host();
    let errnos = Errnos::host();
    let mut endpoint = open(0x81);
    endpoint.submit(Buffer::new(4), &codes);
    endpoint.aio_submitted(0, handle(1), None);
    endpoint.submit(Buffer::new(4), &codes);
    endpoint.aio_submitted(1, handle(2), None);
    assert_eq!(endpoint.pending(), 2);

    endpoint.aio_finished(1, Ok(2), &[21, 22, 0, 0]);
    assert!(endpoint.poll_next_complete(&errnos, ugen).is_none());
    assert_eq!(endpoint.pending(), 2);

    endpoint.aio_finished(0, Ok(1), &[11, 0, 0, 0]);
    let first = endpoint.poll_next_complete(&errnos, ugen).unwrap();
    assert_eq!(first.status, Ok(()));
    assert_eq!(first.actual_len, 1);
    assert_eq!(first.buffer.prefix(1), vec![11]);
    let second = endpoint.poll_next_complete(&errnos, ugen).unwrap();
    assert_eq!(second.actual_len, 2);
    assert_eq!(second.buffer.len, 2);
    assert_eq!(second.buffer.prefix(2), vec![21, 22]);
    assert!(endpoint.poll_next_complete(&errnos, ugen).is_none());
    assert_eq!(endpoint.pending(), 0);
}

#[test]
fn failures_of_a_request_are_reported() {
    let codes = AioCodes::host();
    let errnos = Errnos::host();
    let mut endpoint = open(0x01);
    endpoint.submit(filled(&[1, 2]), &codes);
    endpoint.aio_submitted(0, handle(1), Some(Errno::from_raw_os_error(errnos.pipe)));
    let refused = endpoint.poll_next_complete(&errnos, ugen).unwrap();
    assert_eq!(refused.status, Err(TransferError::Stall));
    assert_eq!(refused.actual_len, 0);
    assert_eq!(refused.buffer.len, 2);

    let mut endpoint = open(0x01);
    endpoint.submit(filled(&[1, 2]), &codes);
    endpoint.aio_submitted(0, handle(1), None);
    endpoint.aio_finished(0, Err(UsbResult::UgenStat(5)), &[]);
    let failed = endpoint.poll_next_complete(&errnos, ugen).unwrap();
    assert_eq!(failed.status, Err(TransferError::Unknown(1005)));
}

#[test]
fn an_invalid_submission_completes_at_once() {
    let errnos = Errnos::host();
    let mut endpoint = open(0x01);
    endpoint.submit_err(filled(&[1, 2]), TransferError::InvalidArgument, &errnos);
    assert_eq!(endpoint.pending(), 1);
    let completion = endpoint.poll_next_complete(&errnos, ugen).unwrap();
    assert_eq!(completion.status, Err(TransferError::Unknown(errnos.inval as u32)));
    assert_eq!(completion.actual_len, 0);
    assert_eq!(completion.buffer.prefix(2), vec![1, 2]);
}

#[test]
fn a_taken_transfer_has_no_buffer() {
    let errnos = Errnos::host();
    let mut endpoint = open(0x01);
    endpoint.submit_err(filled(&[1]), TransferError::InvalidArgument, &errnos);
    endpoint.poll_next_complete(&errnos, ugen).unwrap();
    assert!(!endpoint.can_submit());
    assert!(endpoint.can_poll());
    endpoint.submit_err(filled(&[2]), TransferError::InvalidArgument, &errnos);
    assert!(!endpoint.can_poll());
    assert!(endpoint.can_submit());
}

#[test]
fn an_idle_transfer_is_used_as_it_stands() {
    let errnos = Errnos::host();
    let mut endpoint = open(0x81);
    let fresh = endpoint.make_transfer(Buffer::new(3));
    assert!(fresh.transfer.is_some());
    endpoint.submit_err(Buffer::new(3), TransferError::InvalidArgument, &errnos);
    endpoint.poll_next_complete(&errnos, ugen).unwrap();
    let idle = endpoint.make_transfer(Buffer::new(3));
    assert!(idle.transfer.is_none());
    assert!(endpoint.can_submit());
}

#[test]
fn cancellation_goes_from_the_newest_to_the_oldest() {
    let codes = AioCodes::host();
    let errnos = Errnos::host();
    let mut endpoint = open(0x81);
    for i in 0..3 {
        endpoint.submit(Buffer::new(4), &codes);
        endpoint.aio_submitted(i, handle(10 + i), None);
    }
    endpoint.submit_err(Buffer::new(4), TransferError::InvalidArgument, &errnos);
    assert_eq!(endpoint.cancel_all(), vec![handle(12), handle(11), handle(10)]);
    endpoint.aio_finished(1, Err(UsbResult::Errno(Errno::from_raw_os_error(125))), &[0; 4]);
    assert_eq!(endpoint.cancel_all(), vec![handle(12), handle(10)]);
}
