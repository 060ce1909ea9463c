use illumos_ugen::errno::{
    errno_to_transfer_error, format_os_error_code, to_unsigned, Errno, Errnos, TransferError,
};
use illumos_ugen::error::{Error, ErrorKind};
use rustix::io::Errno as E;

fn number(errno: E) -> Errno {
    Errno::from_raw_os_error(errno.raw_os_error())
}

#[test]
fn host_errnos_are_those_of_the_system() {
    let errnos = Errnos::host();
    assert_eq!(errnos.perm, E::PERM.raw_os_error());
    assert_eq!(errnos.noent, E::NOENT.raw_os_error());
    assert_eq!(errnos.nodev, E::NODEV.raw_os_error());
    assert_eq!(errnos.inval, E::INVAL.raw_os_error());
    assert_eq!(errnos.pipe, E::PIPE.raw_os_error());
    assert_eq!(errnos.time, E::TIME.raw_os_error());
    assert_eq!(errnos.comm, E::COMM.raw_os_error());
    assert_eq!(errnos.proto, E::PROTO.raw_os_error());
    assert_eq!(errnos.overflow, E::OVERFLOW.raw_os_error());
    assert_eq!(errnos.ilseq, E::ILSEQ.raw_os_error());
    assert_eq!(errnos.connreset, E::CONNRESET.raw_os_error());
    assert_eq!(errnos.shutdown, E::SHUTDOWN.raw_os_error());
    assert_eq!(errnos.timedout, E::TIMEDOUT.raw_os_error());
}

#[test]
fn host_errnos_are_positive_and_distinct() {
    let e = Errnos::host();
    let numbers = [
        e.perm, e.noent, e.nodev, e.inval, e.pipe, e.time, e.comm, e.proto, e.overflow, e.ilseq,
        e.connreset, e.shutdown, e.timedout,
    ];
    for i in 0..numbers.len() {
        assert!(numbers[i] > 0);
        for j in 0..i {
            assert_ne!(numbers[i], numbers[j]);
        }
    }
}

#[test]
fn each_errno_has_its_meaning() {
    for gone in [E::NODEV, E::SHUTDOWN] {
        assert_eq!(errno_to_transfer_error(number(gone)), TransferError::Disconnected);
    }
    assert_eq!(errno_to_transfer_error(number(E::PIPE)), TransferError::Stall);
    for cancelled in [E::NOENT, E::CONNRESET, E::TIMEDOUT] {
        assert_eq!(errno_to_transfer_error(number(cancelled)), TransferError::Cancelled);
    }
    for fault in [E::PROTO, E::ILSEQ, E::OVERFLOW, E::COMM, E::TIME] {
        assert_eq!(errno_to_transfer_error(number(fault)), TransferError::Fault);
    }
    for other in [E::BADF, E::INVAL, E::PERM, E::IO] {
        let raw = other.raw_os_error() as u32;
        assert_eq!(errno_to_transfer_error(number(other)), TransferError::Unknown(raw));
    }
}

#[test]
fn unknown_numbers_keep_their_bits() {
    let errnos = Errnos::host();
    assert_eq!(
        errnos.transfer_error(Errno::from_raw_os_error(-1)),
        TransferError::Unknown(0xffff_ffff)
    );
    assert_eq!(errnos.transfer_error(Errno::from_raw_os_error(0)), TransferError::Unknown(0));
    assert_eq!(to_unsigned(i32::MIN), 0x8000_0000);
    assert_eq!(to_unsigned(7), 7);
}

#[test]
fn a_table_decides_what_numbers_mean() {
    let errnos = Errnos {
        perm: 1,
        noent: 2,
        nodev: 19,
        inval: 22,
        pipe: 32,
        time: 62,
        comm: 70,
        proto: 71,
        overflow: 79,
        ilseq: 88,
        connreset: 131,
        shutdown: 143,
        timedout: 145,
    };
    assert_eq!(
        errnos.transfer_error(Errno::from_raw_os_error(143)),
        TransferError::Disconnected
    );
    assert_eq!(errnos.transfer_error(Errno::from_raw_os_error(145)), TransferError::Cancelled);
    assert_eq!(errnos.transfer_error(Errno::from_raw_os_error(88)), TransferError::Fault);
    assert_eq!(errnos.transfer_error(Errno::from_raw_os_error(108)), TransferError::Unknown(108));
}

#[test]
fn error_codes_as_text() {
    assert_eq!(format_os_error_code(0), "errno 0");
    assert_eq!(format_os_error_code(9), "errno 9");
    assert_eq!(format_os_error_code(10), "errno 10");
    assert_eq!(format_os_error_code(145), "errno 145");
    assert_eq!(format_os_error_code(u32::MAX), "errno 4294967295");
}

#[test]
fn os_errors_carry_their_number() {
    let error = Error::new_os(ErrorKind::Other, "failed", Errno::from_raw_os_error(5));
    assert_eq!(error.kind, ErrorKind::Other);
    assert_eq!(error.code, Some(5));
    assert_eq!(error.message, "failed");
    let none = Error::new_os(ErrorKind::Busy, "failed", Errno::from_raw_os_error(0));
    assert_eq!(none.code, None);
    let negative = Error::new_os(ErrorKind::Busy, "failed", Errno::from_raw_os_error(-1));
    assert_eq!(negative.code, Some(0xffff_ffff));
    assert_eq!(Error::new(ErrorKind::Busy, "in use").code, None);
}

#[test]
fn control_open_errors_by_number() {
    let errnos = Errnos::host();
    let gone = Error::control_open(Errno::from_raw_os_error(errnos.noent), &errnos);
    assert_eq!(gone.kind, ErrorKind::Disconnected);
    assert_eq!(gone.message, "device not found");
    assert_eq!(gone.code, Some(errnos.noent as u32));
    let denied = Error::control_open(Errno::from_raw_os_error(errnos.perm), &errnos);
    assert_eq!(denied.kind, ErrorKind::PermissionDenied);
    assert_eq!(denied.message, "permission denied");
    let other = Error::control_open(Errno::from_raw_os_error(errnos.inval), &errnos);
    assert_eq!(other.kind, ErrorKind::Other);
    assert_eq!(other.message, "failed to open device");
    assert_eq!(other.code, Some(errnos.inval as u32));
}

#[test]
fn endpoint_open_errors_keep_positive_numbers_only() {
    let error = Error::endpoint_open("opening device fd failed", Errno::from_raw_os_error(13));
    assert_eq!(error.kind, ErrorKind::Other);
    assert_eq!(error.code, Some(13));
    assert_eq!(error.message, "opening device fd failed");
    assert_eq!(Error::endpoint_open("x", Errno::from_raw_os_error(0)).code, None);
    assert_eq!(Error::endpoint_open("x", Errno::from_raw_os_error(-13)).code, None);
}
