use crate::addr::{host_little_endian, wire_order, BtAddr};
use crate::error::{
    create_error_from_desc, create_error_from_errno, is_desc_error, is_errno_error, BtError,
};
use crate::sdp::{
    initial_query, query_step, IoEvent, QueryModel, QueryRFCOMMChannel, QueryRFCOMMChannelStatus, QueryState,
    StepOutcome, SDP_PSM,
};
use vstd::prelude::*;

verus! {

/// The readiness a caller waits for before the next step.
#[derive(Debug, Clone, Copy, PartialEq, Eq, Structural)]
pub enum Interest {
    Readable,
    Writable,
}

/// What needs to happen before the connection process can take its next step.
#[derive(Debug, Clone, Copy, PartialEq, Eq, Structural)]
pub enum BtAsync {
    /// Wait until the descriptor reaches the given readiness, then perform the
    /// pending operation.
    WaitFor(i32, Interest),
    /// Perform the pending operation at once.
    Proceed,
    /// The socket is connected.
    Done,
}

/// Where a connection process stands.
#[derive(Debug, Clone, Copy, PartialEq, Eq, Structural)]
pub enum BtSocketConnectState {
    /// Looking up the RFCOMM channel over SDP.
    SDPSearch,
    /// The connect to this channel is to be issued.
    Connect(u8),
    /// The connect is under way; the peer name tells whether it succeeded.
    Verify,
    /// The connect failed; a one-byte read recovers its error code.
    Probe,
    /// The socket is connected.
    Done,
    /// A step failed; the process is spent.
    Failed,
}

/// The non-blocking operation a driver performs before the next step.
#[derive(Debug, Clone)]
pub enum PendingIo {
    /// Connect the control socket to the SDP server: address in wire order, and PSM.
    ConnectControl(i32, BtAddr, u16),
    /// Send these request bytes on the control socket.
    SendControl(i32, Vec<u8>),
    /// Receive on the control socket.
    ReceiveControl(i32),
    /// Connect the target socket: address in wire order, and RFCOMM channel.
    ConnectTarget(i32, BtAddr, u8),
    /// Ask for the target socket's peer name.
    PeerName(i32),
    /// Read one byte from the target socket, expecting it to fail.
    ReadProbe(i32),
    /// Nothing: the process has ended.
    Nothing,
}

/// The abstract state of a connection process.
pub struct ConnectModel {
    pub addr: BtAddr,
    pub socket_fd: i32,
    pub pollfd: i32,
    pub state: BtSocketConnectState,
    pub query: QueryModel,
}

/// How a connection step ends: with a directive, an OS error, or a described failure.
pub enum ConnectOutcome {
    Status(BtAsync),
    Errno(Seq<char>, i32),
    Desc(Seq<char>),
}

/// `r` is what `out` describes.
pub open spec fn connect_outcome_holds(out: ConnectOutcome, r: Result<BtAsync, BtError>) -> bool {
    match out {
        ConnectOutcome::Status(s) => r == Ok::<BtAsync, BtError>(s),
        ConnectOutcome::Errno(m, c) => r is Err && is_errno_error(r->Err_0, m, c),
        ConnectOutcome::Desc(m) => r is Err && is_desc_error(r->Err_0, m),
    }
}

/// Whether a step that ended with `out` ended the process.
pub open spec fn is_terminal(out: ConnectOutcome) -> bool {
    match out {
        ConnectOutcome::Status(s) => s == BtAsync::Done,
        _ => true,
    }
}

/// Whether the process is over, with `Done` or with an error.
pub open spec fn finished(o: ConnectModel) -> bool {
    o.state == BtSocketConnectState::Done || o.state == BtSocketConnectState::Failed
}

/// Whether `ev` may be handed to a process in model `o`: the process has not
/// ended, and a read probe is only ever expected to fail.
pub open spec fn step_admitted(o: ConnectModel, ev: IoEvent) -> bool {
    &&& !finished(o)
    &&& o.state == BtSocketConnectState::Probe ==> ev is Failed
}

/// The model after a failed step.
pub open spec fn connect_failed(o: ConnectModel) -> ConnectModel {
    ConnectModel { state: BtSocketConnectState::Failed, ..o }
}

/// A step of the SDP phase: the query's step, with its directives passed on.
pub open spec fn search_step(o: ConnectModel, ev: IoEvent) -> (ConnectModel, ConnectOutcome) {
    let (q, out) = query_step(o.query, ev);
    match out {
        StepOutcome::Status(QueryRFCOMMChannelStatus::WaitReadable(fd)) => (
            ConnectModel { query: q, pollfd: fd, ..o },
            ConnectOutcome::Status(BtAsync::WaitFor(fd, Interest::Readable)),
        ),
        StepOutcome::Status(QueryRFCOMMChannelStatus::WaitWritable(fd)) => (
            ConnectModel { query: q, pollfd: fd, ..o },
            ConnectOutcome::Status(BtAsync::WaitFor(fd, Interest::Writable)),
        ),
        StepOutcome::Status(QueryRFCOMMChannelStatus::Done(ch)) => (
            ConnectModel { query: q, state: BtSocketConnectState::Connect(ch), ..o },
            ConnectOutcome::Status(BtAsync::Proceed),
        ),
        StepOutcome::Errno(m, c) => (
            ConnectModel { query: q, state: BtSocketConnectState::Failed, ..o },
            ConnectOutcome::Errno(m, c),
        ),
        StepOutcome::Desc(m) => (
            ConnectModel { query: q, state: BtSocketConnectState::Failed, ..o },
            ConnectOutcome::Desc(m),
        ),
    }
}

/// One step of a connection process in model `o` on the outcome `ev` of the
/// operation that it asked for.
pub open spec fn connect_step(o: ConnectModel, ev: IoEvent) -> (ConnectModel, ConnectOutcome) {
    match o.state {
        BtSocketConnectState::SDPSearch => search_step(o, ev),
        BtSocketConnectState::Connect(_) => match ev {
            IoEvent::Completed => (
                ConnectModel { state: BtSocketConnectState::Done, pollfd: o.socket_fd, ..o },
                ConnectOutcome::Status(BtAsync::Done),
            ),
            IoEvent::InProgress => (
                ConnectModel { state: BtSocketConnectState::Verify, pollfd: o.socket_fd, ..o },
                ConnectOutcome::Status(BtAsync::WaitFor(o.socket_fd, Interest::Writable)),
            ),
            IoEvent::Failed(c) => (
                connect_failed(o),
                ConnectOutcome::Errno("Failed to connect() to target device"@, c),
            ),
            _ => (connect_failed(o), ConnectOutcome::Desc("unexpected I/O outcome"@)),
        },
        BtSocketConnectState::Verify => match ev {
            IoEvent::Completed => (
                ConnectModel { state: BtSocketConnectState::Done, ..o },
                ConnectOutcome::Status(BtAsync::Done),
            ),
            IoEvent::NotConnected => (
                ConnectModel { state: BtSocketConnectState::Probe, ..o },
                ConnectOutcome::Status(BtAsync::Proceed),
            ),
            IoEvent::Failed(c) => (
                connect_failed(o),
                ConnectOutcome::Errno("getpeername() failed"@, c),
            ),
            _ => (connect_failed(o), ConnectOutcome::Desc("unexpected I/O outcome"@)),
        },
        BtSocketConnectState::Probe => match ev {
            IoEvent::Failed(c) => (
                connect_failed(o),
                ConnectOutcome::Errno("Failed to connect() to target device"@, c),
            ),
            _ => (
                connect_failed(o),
                ConnectOutcome::Desc("read on a failed connection did not fail"@),
            ),
        },
        BtSocketConnectState::Done | BtSocketConnectState::Failed => (
            o,
            ConnectOutcome::Desc("connection advanced after it ended"@),
        ),
    }
}

/// Manages the connection of an RFCOMM socket: an SDP lookup of the channel,
/// then a non-blocking connect and its verification. A driver performs the
/// operation that `pending_io` names and hands its outcome to `advance`,
/// waiting first for the readiness that the previous step asked for.
#[derive(Debug)]
pub struct BtSocketConnect {
    addr: BtAddr,
    socket_fd: i32,
    pollfd: i32,
    state: BtSocketConnectState,
    query: QueryRFCOMMChannel,
}

impl View for BtSocketConnect {
    type V = ConnectModel;

    closed spec fn view(&self) -> ConnectModel {
        ConnectModel {
            addr: self.addr,
            socket_fd: self.socket_fd,
            pollfd: self.pollfd,
            state: self.state,
            query: self.query@,
        }
    }
}

impl BtSocketConnect {
    /// The bounds that every step keeps.
    pub closed spec fn inv(&self) -> bool {
        self.query.inv()
    }

    /// A process that connects the socket `socket_fd` to the serial port
    /// service of `addr`, looking the channel up over the control socket
    /// `control_fd`.
    pub fn new(socket_fd: i32, control_fd: i32, addr: BtAddr) -> (r: BtSocketConnect)
        ensures
            r.inv(),
            r@.addr == addr,
            r@.socket_fd == socket_fd,
            r@.pollfd == 0,
            r@.state == BtSocketConnectState::SDPSearch,
            r@.query == initial_query(addr, control_fd),
    {
        let query = QueryRFCOMMChannel::new(addr, control_fd);
        BtSocketConnect {
            addr,
            socket_fd,
            pollfd: 0,
            state: BtSocketConnectState::SDPSearch,
            query,
        }
    }

    /// Whether the process is over; `advance` may not be called then.
    pub fn is_finished(&self) -> (r: bool)
        ensures
            r == finished(self@),
    {
        match self.state {
            BtSocketConnectState::Done | BtSocketConnectState::Failed => true,
            _ => false,
        }
    }

    /// The descriptor that the last step asked the caller to watch.
    pub fn pollfd(&self) -> (r: i32)
        ensures
            r == self@.pollfd,
    {
        self.pollfd
    }

    /// Where the process stands.
    pub fn state(&self) -> (r: BtSocketConnectState)
        ensures
            r == self@.state,
    {
        self.state
    }

    /// The operation that the driver performs before the next step.
    pub fn pending_io(&self) -> (r: PendingIo)
        requires
            self.inv(),
        ensures
            match self@.state {
                BtSocketConnectState::SDPSearch => match self@.query.state {
                    QueryState::AwaitConnect => r is ConnectControl && r->ConnectControl_0
                        == self@.query.fd && r->ConnectControl_1.0@ == wire_order(
                        self@.addr.0@,
                        host_little_endian(),
                    ) && r->ConnectControl_2 == SDP_PSM,
                    QueryState::AwaitWritable => r is SendControl && r->SendControl_0
                        == self@.query.fd && r->SendControl_1@ == self@.query.request.subrange(
                        self@.query.sent,
                        self@.query.request.len() as int,
                    ),
                    QueryState::AwaitReadable => r == PendingIo::ReceiveControl(self@.query.fd),
                    _ => r == PendingIo::Nothing,
                },
                BtSocketConnectState::Connect(ch) => r is ConnectTarget && r->ConnectTarget_0
                    == self@.socket_fd && r->ConnectTarget_1.0@ == wire_order(
                    self@.addr.0@,
                    host_little_endian(),
                ) && r->ConnectTarget_2 == ch,
                BtSocketConnectState::Verify => r == PendingIo::PeerName(self@.socket_fd),
                BtSocketConnectState::Probe => r == PendingIo::ReadProbe(self@.socket_fd),
                _ => r == PendingIo::Nothing,
            },
    {
        proof {
            use_query_inv(self);
        }
        match self.state {
            BtSocketConnectState::SDPSearch => match self.query.state() {
                QueryState::AwaitConnect => PendingIo::ConnectControl(
                    self.query.fd(),
                    self.addr.convert_host_byteorder(),
                    SDP_PSM,
                ),
                QueryState::AwaitWritable => PendingIo::SendControl(
                    self.query.fd(),
                    self.query.unsent(),
                ),
                QueryState::AwaitReadable => PendingIo::ReceiveControl(self.query.fd()),
                _ => PendingIo::Nothing,
            },
            BtSocketConnectState::Connect(ch) => PendingIo::ConnectTarget(
                self.socket_fd,
                self.addr.convert_host_byteorder(),
                ch,
            ),
            BtSocketConnectState::Verify => PendingIo::PeerName(self.socket_fd),
            BtSocketConnectState::Probe => PendingIo::ReadProbe(self.socket_fd),
            _ => PendingIo::Nothing,
        }
    }

    /// Advances the process on the outcome of the operation that `pending_io`
    /// named. During the SDP phase the query's directives are passed on; once
    /// the channel is known the target connect is due. A connect that is under
    /// way is verified through the peer name; where that reports "not
    /// connected", a read probe recovers the connect's real error code, which
    /// is reported. A call after `Done` or after an error is a caller's bug, and
    /// so is a read probe that did not fail: `requires` refuses both.
    pub fn advance(&mut self, ev: IoEvent) -> (r: Result<BtAsync, BtError>)
        requires
            old(self).inv(),
            step_admitted(old(self)@, ev),
        ensures
            final(self).inv(),
            final(self)@ == connect_step(old(self)@, ev).0,
            connect_outcome_holds(connect_step(old(self)@, ev).1, r),
            (old(self)@.state == BtSocketConnectState::Probe && ev is Failed) ==> r is Err
                && is_errno_error(
                r->Err_0,
                "Failed to connect() to target device"@,
                ev->Failed_0,
            ),
    {
        proof {
            use_query_inv(self);
        }
        match self.state {
            BtSocketConnectState::SDPSearch => {
                let r = self.query.advance(ev);
                match r {
                    Ok(QueryRFCOMMChannelStatus::WaitReadable(fd)) => {
                        self.pollfd = fd;
                        Ok(BtAsync::WaitFor(fd, Interest::Readable))
                    },
                    Ok(QueryRFCOMMChannelStatus::WaitWritable(fd)) => {
                        self.pollfd = fd;
                        Ok(BtAsync::WaitFor(fd, Interest::Writable))
                    },
                    Ok(QueryRFCOMMChannelStatus::Done(ch)) => {
                        self.state = BtSocketConnectState::Connect(ch);
                        Ok(BtAsync::Proceed)
                    },
                    Err(e) => {
                        self.state = BtSocketConnectState::Failed;
                        Err(e)
                    },
                }
            },
            BtSocketConnectState::Connect(_) => match ev {
                IoEvent::Completed => {
                    self.pollfd = self.socket_fd;
                    self.state = BtSocketConnectState::Done;
                    Ok(BtAsync::Done)
                },
                IoEvent::InProgress => {
                    self.pollfd = self.socket_fd;
                    self.state = BtSocketConnectState::Verify;
                    Ok(BtAsync::WaitFor(self.socket_fd, Interest::Writable))
                },
                IoEvent::Failed(c) => {
                    self.state = BtSocketConnectState::Failed;
                    Err(create_error_from_errno("Failed to connect() to target device", c))
                },
                _ => {
                    self.state = BtSocketConnectState::Failed;
                    Err(create_error_from_desc("unexpected I/O outcome"))
                },
            },
            BtSocketConnectState::Verify => match ev {
                IoEvent::Completed => {
                    self.state = BtSocketConnectState::Done;
                    Ok(BtAsync::Done)
                },
                IoEvent::NotConnected => {
                    self.state = BtSocketConnectState::Probe;
                    Ok(BtAsync::Proceed)
                },
                IoEvent::Failed(c) => {
                    self.state = BtSocketConnectState::Failed;
                    Err(create_error_from_errno("getpeername() failed", c))
                },
                _ => {
                    self.state = BtSocketConnectState::Failed;
                    Err(create_error_from_desc("unexpected I/O outcome"))
                },
            },
            BtSocketConnectState::Probe => match ev {
                IoEvent::Failed(c) => {
                    self.state = BtSocketConnectState::Failed;
                    Err(create_error_from_errno("Failed to connect() to target device", c))
                },
                _ => {
                    self.state = BtSocketConnectState::Failed;
                    Err(create_error_from_desc("read on a failed connection did not fail"))
                },
            },
            _ => Err(create_error_from_desc("connection advanced after it ended")),
        }
    }
}

proof fn use_query_inv(c: &BtSocketConnect)
    ensures
        c.inv() == c.query.inv(),
        c@.query == c.query@,
{
}

/// A step that ends the process, with `Done` or with an error, leaves it
/// finished, so that `advance` admits no further step.
pub proof fn lemma_no_step_after_end(o: ConnectModel, ev: IoEvent, next: IoEvent)
    requires
        step_admitted(o, ev),
        is_terminal(connect_step(o, ev).1),
    ensures
        finished(connect_step(o, ev).0),
        !step_admitted(connect_step(o, ev).0, next),
{
}

/// When the peer-name query reports "not connected", the process asks for the
/// read probe, and the error that the probe meets is the one reported.
pub proof fn lemma_probe_reports_real_error(o: ConnectModel, code: i32)
    requires
        o.state == BtSocketConnectState::Verify,
    ensures
        connect_step(o, IoEvent::NotConnected).1 == ConnectOutcome::Status(BtAsync::Proceed),
        connect_step(connect_step(o, IoEvent::NotConnected).0, IoEvent::Failed(code)).1
            == ConnectOutcome::Errno("Failed to connect() to target device"@, code),
{
}

} // verus!
