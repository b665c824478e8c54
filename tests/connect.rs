use bluetooth_serial_port_async::{
    create_error_from_errno, BtAddr, BtAsync, BtError, BtSocketConnect, BtSocketConnectState,
    Interest, IoEvent, PendingIo,
};

const TARGET: i32 = 3;
const CONTROL: i32 = 9;

fn addr() -> BtAddr {
    BtAddr([0, 22, 4, 1, 33, 192])
}

fn sdp_reply(channel: u8) -> Vec<u8> {
    let lists = [
        0x35, 0x13, 0x35, 0x11, 0x09, 0x00, 0x04, 0x35, 0x0C, 0x35, 0x03, 0x19, 0x01, 0x00,
        0x35, 0x05, 0x19, 0x00, 0x03, 0x08, channel,
    ];
    let mut r = vec![0x07, 0x00, 0x00, 0x00, 2 + 21 + 1, 0x00, 21];
    r.extend_from_slice(&lists);
    r.push(0);
    r
}

/// Drives the SDP phase to the point where the target connect is due.
fn through_sdp(channel: u8) -> BtSocketConnect {
    let mut c = BtSocketConnect::new(TARGET, CONTROL, addr());
    assert_eq!(c.state(), BtSocketConnectState::SDPSearch);
    match c.pending_io() {
        PendingIo::ConnectControl(fd, a, psm) => {
            assert_eq!(fd, CONTROL);
            assert_eq!(a, addr().convert_host_byteorder());
            assert_eq!(psm, 1);
        },
        other => panic!("unexpected {:?}", other),
    }
    assert_eq!(c.advance(IoEvent::InProgress).unwrap(), BtAsync::WaitFor(CONTROL, Interest::Writable));
    let n = match c.pending_io() {
        PendingIo::SendControl(fd, bytes) => {
            assert_eq!(fd, CONTROL);
            bytes.len()
        },
        other => panic!("unexpected {:?}", other),
    };
    assert_eq!(c.advance(IoEvent::Sent(n)).unwrap(), BtAsync::WaitFor(CONTROL, Interest::Readable));
    assert_eq!(c.pollfd(), CONTROL);
    match c.pending_io() {
        PendingIo::ReceiveControl(fd) => assert_eq!(fd, CONTROL),
        other => panic!("unexpected {:?}", other),
    }
    assert_eq!(c.advance(IoEvent::Received(sdp_reply(channel))).unwrap(), BtAsync::Proceed);
    match c.pending_io() {
        PendingIo::ConnectTarget(fd, a, ch) => {
            assert_eq!(fd, TARGET);
            assert_eq!(a, addr().convert_host_byteorder());
            assert_eq!(ch, channel);
        },
        other => panic!("unexpected {:?}", other),
    }
    c
}

#[test]
fn connect_refusal_reports_probe_errno() {
    let mut c = through_sdp(4);
    assert_eq!(c.advance(IoEvent::InProgress).unwrap(), BtAsync::WaitFor(TARGET, Interest::Writable));
    assert_eq!(c.pollfd(), TARGET);
    match c.pending_io() {
        PendingIo::PeerName(fd) => assert_eq!(fd, TARGET),
        other => panic!("unexpected {:?}", other),
    }
    assert_eq!(c.advance(IoEvent::NotConnected).unwrap(), BtAsync::Proceed);
    match c.pending_io() {
        PendingIo::ReadProbe(fd) => assert_eq!(fd, TARGET),
        other => panic!("unexpected {:?}", other),
    }
    match c.advance(IoEvent::Failed(111)) {
        Err(BtError::Errno(code, m)) => {
            assert_eq!(code, 111);
            assert_eq!(m, "Failed to connect() to target device: ECONNREFUSED: Connection refused");
        },
        other => panic!("unexpected {:?}", other),
    }
    assert_eq!(c.state(), BtSocketConnectState::Failed);
}

#[test]
fn connect_completes_after_peer_name() {
    let mut c = through_sdp(1);
    assert_eq!(c.advance(IoEvent::InProgress).unwrap(), BtAsync::WaitFor(TARGET, Interest::Writable));
    assert_eq!(c.advance(IoEvent::Completed).unwrap(), BtAsync::Done);
    assert_eq!(c.state(), BtSocketConnectState::Done);
    match c.pending_io() {
        PendingIo::Nothing => (),
        other => panic!("unexpected {:?}", other),
    }
}

#[test]
fn connect_may_complete_at_once() {
    let mut c = through_sdp(2);
    assert_eq!(c.advance(IoEvent::Completed).unwrap(), BtAsync::Done);
}

#[test]
fn connect_failure_and_peer_name_failure_are_reported() {
    let mut c = through_sdp(2);
    match c.advance(IoEvent::Failed(113)) {
        Err(BtError::Errno(113, m)) => {
            assert!(m.starts_with("Failed to connect() to target device: "), "{}", m)
        },
        other => panic!("unexpected {:?}", other),
    }

    let mut c = through_sdp(2);
    c.advance(IoEvent::InProgress).unwrap();
    match c.advance(IoEvent::Failed(9)) {
        Err(BtError::Errno(9, m)) => assert!(m.starts_with("getpeername() failed: "), "{}", m),
        other => panic!("unexpected {:?}", other),
    }
}

#[test]
fn process_is_finished_after_done() {
    let mut c = through_sdp(3);
    assert!(!c.is_finished());
    assert_eq!(c.advance(IoEvent::Completed).unwrap(), BtAsync::Done);
    assert!(c.is_finished());
    assert_eq!(c.state(), BtSocketConnectState::Done);
    match c.pending_io() {
        PendingIo::Nothing => (),
        other => panic!("unexpected {:?}", other),
    }
}

#[test]
fn process_is_finished_after_error() {
    let mut c = BtSocketConnect::new(TARGET, CONTROL, addr());
    assert!(!c.is_finished());
    match c.advance(IoEvent::Failed(112)) {
        Err(BtError::Errno(112, _)) => (),
        other => panic!("unexpected {:?}", other),
    }
    assert!(c.is_finished());
    assert_eq!(c.state(), BtSocketConnectState::Failed);

    let mut c = through_sdp(2);
    c.advance(IoEvent::InProgress).unwrap();
    c.advance(IoEvent::NotConnected).unwrap();
    assert!(!c.is_finished());
    assert!(c.advance(IoEvent::Failed(104)).is_err());
    assert!(c.is_finished());
}

#[test]
fn errno_error_names_the_code() {
    match create_error_from_errno("read()", 11) {
        BtError::Errno(11, m) => assert_eq!(m, "read(): EAGAIN: Try again"),
        other => panic!("unexpected {:?}", other),
    }
}
