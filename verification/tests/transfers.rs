use illumos_ugen::buffer::Buffer;
use illumos_ugen::control::{ControlAction, ControlTransfer};
use illumos_ugen::errno::{Errno, Errnos, TransferError};
use illumos_ugen::transfer::{
    aio_outcome, aio_refusal, aio_status, handle_errno_result, AioCodes, AioHandle, AioOutcome,
    AioReply, Outcome, StatRead, TransferData, UsbResult,
};
use illumos_ugen::usb::{ControlIn, ControlOut, ControlType, Direction, Recipient};

fn ugen(code: u32) -> TransferError {
    if code == 4 {
        TransferError::Stall
    } else {
        TransferError::Unknown(code)
    }
}

fn filled(bytes: &[u8], size: usize) -> Buffer {
    let mut buffer = Buffer::new(size);
    buffer.extend_from_slice(bytes);
    buffer
}

fn ask(length: u16) -> ControlIn {
    ControlIn {
        control_type: ControlType::Standard,
        recipient: Recipient::Device,
        request: 6,
        value: 0x0100,
        index: 0,
        length,
    }
}

fn tell(data: &[u8]) -> ControlOut<'_> {
    ControlOut {
        control_type: ControlType::Vendor,
        recipient: Recipient::Device,
        request: 1,
        value: 0,
        index: 0,
        data,
    }
}

#[test]
fn buffers_hold_what_was_appended() {
    let mut buffer = Buffer::new(4);
    assert_eq!((buffer.len, buffer.requested_len), (0, 4));
    assert_eq!(buffer.memory, vec![0; 4]);
    buffer.extend_from_slice(&[1, 2]);
    buffer.extend_from_slice(&[3]);
    assert_eq!(buffer.len, 3);
    assert_eq!(buffer.memory, vec![1, 2, 3, 0]);
    buffer.write_at(2, &[8, 9]);
    assert_eq!(buffer.memory, vec![1, 2, 8, 9]);
    assert_eq!(buffer.len, 3);
    assert_eq!(buffer.prefix(2), vec![1, 2]);
}

#[test]
fn failures_have_a_meaning() {
    let errnos = Errnos::host();
    let pipe = UsbResult::Errno(Errno::from_raw_os_error(errnos.pipe));
    assert_eq!(pipe.to_transfer_error(&errnos, ugen), TransferError::Stall);
    assert_eq!(UsbResult::UgenStat(4).to_transfer_error(&errnos, ugen), TransferError::Stall);
    assert_eq!(
        UsbResult::UgenStat(9).to_transfer_error(&errnos, ugen),
        TransferError::Unknown(9)
    );
}

#[test]
fn status_node_reports() {
    let full = StatRead::Read { count: 4, bytes: [0x78, 0x56, 0x34, 0x12] };
    assert_eq!(full.to_usb_result(), UsbResult::UgenStat(0x1234_5678));
    let all = StatRead::Read { count: 4, bytes: [0xff; 4] };
    assert_eq!(all.to_usb_result(), UsbResult::UgenStat(u32::MAX));
    let short = StatRead::Read { count: 3, bytes: [1, 2, 3, 0] };
    assert_eq!(short.to_usb_result(), UsbResult::UgenStat(0xe));
    let failed = StatRead::Failed(Errno::from_raw_os_error(5));
    assert_eq!(failed.to_usb_result(), UsbResult::Errno(Errno::from_raw_os_error(5)));
}

#[test]
fn results_of_reads_and_writes() {
    assert_eq!(handle_errno_result(Ok(12)), Outcome::Settled(Ok(12)));
    assert_eq!(
        handle_errno_result(Err(Errno::from_raw_os_error(-1))),
        Outcome::CheckStat
    );
    let errno = Errno::from_raw_os_error(5);
    assert_eq!(
        handle_errno_result(Err(errno)),
        Outcome::Settled(Err(UsbResult::Errno(errno)))
    );
}

#[test]
fn results_of_asynchronous_requests() {
    assert_eq!(aio_outcome(0), AioOutcome::TakeReturn);
    assert_eq!(aio_outcome(-1), AioOutcome::CheckStat);
    assert_eq!(
        aio_outcome(125),
        AioOutcome::Failed(UsbResult::Errno(Errno::from_raw_os_error(125)))
    );
}

#[test]
fn ends_of_asynchronous_requests() {
    assert_eq!(aio_status(aio_outcome(0), AioReply::Returned(7)), Ok(7));
    let stat = StatRead::Read { count: 4, bytes: [0x04, 0x03, 0x02, 0x01] };
    assert_eq!(
        aio_status(aio_outcome(-1), AioReply::Stat(stat)),
        Err(UsbResult::UgenStat(0x0102_0304))
    );
    let short = StatRead::Read { count: 3, bytes: [4, 0, 0, 0] };
    assert_eq!(
        aio_status(aio_outcome(-1), AioReply::Stat(short)),
        Err(UsbResult::UgenStat(0xe))
    );
    let errno = Errno::from_raw_os_error(5);
    assert_eq!(
        aio_status(aio_outcome(-1), AioReply::Stat(StatRead::Failed(errno))),
        Err(UsbResult::Errno(errno))
    );
    assert_eq!(
        aio_status(aio_outcome(5), AioReply::Nothing),
        Err(UsbResult::Errno(errno))
    );
}

#[test]
fn refused_asynchronous_requests() {
    let errno = Errno::from_raw_os_error(11);
    assert_eq!(aio_refusal(-1, errno), Some(errno));
    assert_eq!(aio_refusal(0, errno), None);
}

#[test]
fn host_aio_codes_are_those_of_the_system() {
    let codes = AioCodes::host();
    assert_eq!(codes.lio_read, libc::LIO_READ);
    assert_eq!(codes.lio_write, libc::LIO_WRITE);
    assert_eq!(codes.sigev_thread, libc::SIGEV_THREAD);
    assert_ne!(codes.lio_read, codes.lio_write);
}

#[test]
fn a_bulk_read_asks_for_the_requested_length() {
    let codes = AioCodes::host();
    let mut data = TransferData::new_bulk_in(filled(&[1, 2], 6));
    let request = data.start_bulk(10, 11, &codes);
    assert_eq!(request.direction, Direction::In);
    assert_eq!(request.fildes, 10);
    assert_eq!(request.lio_opcode, codes.lio_read);
    assert_eq!(request.data, vec![1, 2, 0, 0, 0, 0]);
    assert_eq!((request.offset, request.reqprio, request.sigev_signo), (0, 0, 0));
    assert_eq!(request.sigev_notify, codes.sigev_thread);
    assert_eq!(data.raw_stat_fd, 11);
}

#[test]
fn a_bulk_write_sends_the_data() {
    let codes = AioCodes::host();
    let mut data = TransferData::new_bulk_out(filled(&[1, 2], 6));
    assert_eq!(data.raw_stat_fd, -1);
    let request = data.start_bulk(10, 11, &codes);
    assert_eq!(request.direction, Direction::Out);
    assert_eq!(request.lio_opcode, codes.lio_write);
    assert_eq!(request.data, vec![1, 2]);
}

#[test]
fn received_bytes_come_back() {
    let errnos = Errnos::host();
    let mut data = TransferData::new_bulk_in(Buffer::new(5));
    assert_eq!(data.status(&errnos, ugen), Ok(()));
    assert_eq!(data.cancel(), None);
    let handle = AioHandle { fildes: 3, block: 0x1000 };
    data.aio_submitted(handle, None);
    assert_eq!(data.cancel(), Some(handle));
    data.aio_finished(Ok(3), &[7, 8, 9, 10, 11]);
    assert_eq!(data.cancel(), None);
    assert_eq!(data.status(&errnos, ugen), Ok(()));
    let completion = data.take_completion(&errnos, ugen);
    assert_eq!(completion.status, Ok(()));
    assert_eq!(completion.actual_len, 3);
    assert_eq!(completion.buffer.len, 3);
    assert_eq!(completion.buffer.memory, vec![7, 8, 9, 0, 0]);
    assert!(data.transfer.is_none());
    assert!(data.status.is_none());
}

#[test]
fn a_sent_buffer_comes_back() {
    let errnos = Errnos::host();
    let mut data = TransferData::new_bulk_out(filled(&[1, 2, 3], 4));
    data.aio_finished(Ok(2), &[]);
    let completion = data.take_completion(&errnos, ugen);
    assert_eq!(completion.status, Ok(()));
    assert_eq!(completion.actual_len, 2);
    assert_eq!(completion.buffer.len, 3);
    assert_eq!(completion.buffer.memory, vec![1, 2, 3, 0]);
}

#[test]
fn a_failed_read_returns_nothing() {
    let errnos = Errnos::host();
    let mut data = TransferData::new_bulk_in(filled(&[1, 2, 3], 4));
    data.aio_finished(Err(UsbResult::UgenStat(4)), &[9, 9, 9, 9]);
    assert_eq!(data.status(&errnos, ugen), Err(TransferError::Stall));
    let completion = data.take_completion(&errnos, ugen);
    assert_eq!(completion.status, Err(TransferError::Stall));
    assert_eq!(completion.actual_len, 0);
    assert_eq!(completion.buffer.len, 0);
    assert_eq!(completion.buffer.memory, vec![1, 2, 3, 0]);
}

#[test]
fn a_refused_request_keeps_its_handle() {
    let errnos = Errnos::host();
    let mut data = TransferData::new_bulk_out(filled(&[1], 1));
    let handle = AioHandle { fildes: 3, block: 1 };
    data.aio_submitted(handle, Some(Errno::from_raw_os_error(errnos.nodev)));
    assert_eq!(data.cancel(), Some(handle));
    assert_eq!(data.status(&errnos, ugen), Err(TransferError::Disconnected));
}

#[test]
fn a_control_request_with_data_is_written_whole() {
    let errnos = Errnos::host();
    let mut transfer = ControlTransfer::new(TransferData::new_control_out(tell(&[5, 6])));
    match transfer.action() {
        ControlAction::Write(bytes) => {
            assert_eq!(bytes, vec![0x40, 1, 0, 0, 0, 0, 2, 0, 5, 6]);
        }
        other => panic!("{:?}", other),
    }
    transfer.written(Ok(10));
    assert!(matches!(transfer.action(), ControlAction::Done));
    let mut data = transfer.into_data();
    assert_eq!(data.status(&errnos, ugen), Ok(()));
    let completion = data.take_completion(&errnos, ugen);
    assert_eq!(completion.actual_len, 10);
    assert_eq!(completion.buffer.len, 10);
}

#[test]
fn the_answer_stands_behind_the_request() {
    let errnos = Errnos::host();
    let mut transfer = ControlTransfer::new(TransferData::new_control_in(ask(4)));
    match transfer.action() {
        ControlAction::Write(bytes) => {
            assert_eq!(bytes, vec![0x80, 6, 0, 1, 0, 0, 4, 0]);
        }
        other => panic!("{:?}", other),
    }
    transfer.written(Ok(8));
    assert!(matches!(transfer.action(), ControlAction::Read(4)));
    transfer.read(Ok(3), &[1, 2, 3, 4]);
    assert!(matches!(transfer.action(), ControlAction::Done));
    let mut data = transfer.into_data();
    let completion = data.take_completion(&errnos, ugen);
    assert_eq!(completion.status, Ok(()));
    assert_eq!(completion.actual_len, 3);
    assert_eq!(completion.buffer.len, 8);
    assert_eq!(completion.buffer.memory, vec![0x80, 6, 0, 1, 0, 0, 4, 0, 1, 2, 3, 0]);
}

#[test]
fn a_failed_write_is_not_followed_by_a_read() {
    let errnos = Errnos::host();
    let mut transfer = ControlTransfer::new(TransferData::new_control_in(ask(4)));
    transfer.written(Err(Errno::from_raw_os_error(errnos.nodev)));
    assert!(matches!(transfer.action(), ControlAction::Done));
    assert_eq!(
        transfer.into_data().status(&errnos, ugen),
        Err(TransferError::Disconnected)
    );
}

#[test]
fn the_status_node_is_asked_after_a_failed_write() {
    let errnos = Errnos::host();
    let mut transfer = ControlTransfer::new(TransferData::new_control_out(tell(&[])));
    transfer.written(Err(Errno::from_raw_os_error(-1)));
    assert!(matches!(transfer.action(), ControlAction::ReadStat));
    transfer.stat_read(StatRead::Read { count: 4, bytes: [4, 0, 0, 0] });
    assert!(matches!(transfer.action(), ControlAction::Done));
    assert_eq!(transfer.into_data().status(&errnos, ugen), Err(TransferError::Stall));
}

#[test]
fn the_status_node_is_asked_after_a_failed_read() {
    let errnos = Errnos::host();
    let mut transfer = ControlTransfer::new(TransferData::new_control_in(ask(2)));
    transfer.written(Ok(8));
    transfer.read(Err(Errno::from_raw_os_error(-1)), &[0, 0]);
    assert!(matches!(transfer.action(), ControlAction::ReadStat));
    transfer.stat_read(StatRead::Failed(Errno::from_raw_os_error(errnos.timedout)));
    assert_eq!(
        transfer.into_data().status(&errnos, ugen),
        Err(TransferError::Cancelled)
    );
}

#[test]
fn a_failed_read_ends_the_transfer() {
    let errnos = Errnos::host();
    let mut transfer = ControlTransfer::new(TransferData::new_control_in(ask(2)));
    transfer.written(Ok(8));
    transfer.read(Err(Errno::from_raw_os_error(errnos.proto)), &[0, 0]);
    assert!(matches!(transfer.action(), ControlAction::Done));
    assert_eq!(transfer.into_data().status(&errnos, ugen), Err(TransferError::Fault));
}
