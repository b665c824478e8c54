use crate::addr::BtAddr;
use crate::error::{
    create_error_from_desc, create_error_from_errno, is_desc_error, is_errno_error, BtError,
};
use vstd::prelude::*;

verus! {

/// L2CAP protocol/service multiplexer of the SDP server.
pub const SDP_PSM: u16 = 1;

/// PDU identifier of an SDP error response.
pub const SDP_ERROR_RSP: u8 = 0x01;

/// PDU identifier of a service-search-attribute request.
pub const SDP_SEARCH_ATTR_REQ: u8 = 0x06;

/// PDU identifier of a service-search-attribute response.
pub const SDP_SEARCH_ATTR_RSP: u8 = 0x07;

/// Bytes in a PDU header: identifier, transaction id, parameter length.
pub const PDU_HEADER_LEN: usize = 5;

/// The longest PDU whose header can describe it.
pub const MAX_PDU_LEN: usize = 65540;

/// The longest continuation token that a server may hand out.
pub const MAX_CONTINUATION_LEN: usize = 16;

/// The most attribute data accepted over all rounds of one query.
pub const MAX_ATTRIBUTE_DATA: usize = 65536;

/// The outcome of the non-blocking operation that the query (or connection)
/// asked its driver to perform.
#[derive(Debug, Clone)]
pub enum IoEvent {
    /// A connect or peer-name query succeeded at once.
    Completed,
    /// A connect was started; writability will signal its end.
    InProgress,
    /// The operation would block (`EAGAIN`).
    WouldBlock,
    /// The socket is not connected (`ENOTCONN`).
    NotConnected,
    /// This many bytes were written.
    Sent(usize),
    /// These bytes were read; none means the peer closed the connection.
    Received(Vec<u8>),
    /// The operation failed with this OS error code.
    Failed(i32),
}

/// What a query asks of its driver after a step.
#[derive(Debug, Clone, Copy, PartialEq, Eq, Structural)]
pub enum QueryRFCOMMChannelStatus {
    /// Wait until the descriptor is readable, then receive.
    WaitReadable(i32),
    /// Wait until the descriptor is writable, then send.
    WaitWritable(i32),
    /// The serial port service listens on this RFCOMM channel.
    Done(u8),
}

/// Where a query stands.
#[derive(Debug, Clone, Copy, PartialEq, Eq, Structural)]
pub enum QueryState {
    /// The control socket's connect is to be issued.
    AwaitConnect,
    /// Request bytes remain to be sent.
    AwaitWritable,
    /// A response PDU is being received.
    AwaitReadable,
    /// The channel was found.
    Done,
    /// A step failed; the query is spent.
    Failed,
}

/// The abstract state of a query.
pub struct QueryModel {
    pub addr: BtAddr,
    pub fd: i32,
    pub state: QueryState,
    pub tid: u16,
    pub request: Seq<u8>,
    pub sent: int,
    pub response: Seq<u8>,
    pub attributes: Seq<u8>,
}

/// A 16-bit big-endian field.
pub open spec fn be16(hi: u8, lo: u8) -> int {
    hi as int * 256 + lo as int
}

/// Parameters of a search for the serial port service class (UUID 0x1101)
/// asking for its protocol descriptor list (attribute 0x0004), with the
/// largest attribute byte count.
pub open spec fn search_params() -> Seq<u8> {
    seq![0x35u8, 0x03u8, 0x19u8, 0x11u8, 0x01u8, 0xFFu8, 0xFFu8, 0x35u8, 0x03u8, 0x09u8, 0x00u8, 0x04u8]
}

/// The search request PDU with transaction id `tid` carrying continuation `cont`.
pub open spec fn request_pdu(tid: u16, cont: Seq<u8>) -> Seq<u8> {
    let plen = 13 + cont.len();
    seq![SDP_SEARCH_ATTR_REQ, (tid / 256) as u8, (tid % 256) as u8, (plen / 256) as u8, (plen % 256) as u8]
        + search_params() + seq![cont.len() as u8] + cont
}

/// Parameter length announced by the header of `p`.
pub open spec fn param_len(p: Seq<u8>) -> int {
    be16(p[3], p[4])
}

/// Whether `p` holds at least a header and the parameters that it announces.
pub open spec fn pdu_complete(p: Seq<u8>) -> bool {
    p.len() >= 5 && p.len() >= 5 + param_len(p)
}

/// Attribute byte count of the response `p`.
pub open spec fn attr_count(p: Seq<u8>) -> int {
    be16(p[5], p[6])
}

/// `p` is a well-formed search-attribute response to transaction `tid`.
pub open spec fn response_ok(p: Seq<u8>, tid: u16) -> bool {
    &&& p.len() >= 8
    &&& p[0] == SDP_SEARCH_ATTR_RSP
    &&& be16(p[1], p[2]) == tid
    &&& p.len() >= 8 + attr_count(p)
    &&& p[7 + attr_count(p)] <= 16
    &&& p.len() == 8 + attr_count(p) + p[7 + attr_count(p)]
}

/// The attribute data that the response `p` carries.
pub open spec fn fragment(p: Seq<u8>) -> Seq<u8> {
    p.subrange(7, 7 + attr_count(p))
}

/// The continuation token of the response `p`; empty on the last round.
pub open spec fn continuation(p: Seq<u8>) -> Seq<u8> {
    p.subrange(8 + attr_count(p), p.len() as int)
}

/// Type of the data element whose header starts at `i`.
pub open spec fn de_type(a: Seq<u8>, i: int) -> int {
    a[i] as int / 8
}

/// Size index of the data element whose header starts at `i`.
pub open spec fn de_size(a: Seq<u8>, i: int) -> int {
    a[i] as int % 8
}

/// Bytes in the header of the data element at `i`.
pub open spec fn de_header_len(a: Seq<u8>, i: int) -> int {
    let s = de_size(a, i);
    if s < 5 {
        1
    } else if s == 5 {
        2
    } else if s == 6 {
        3
    } else {
        5
    }
}

/// Bytes in the body of the data element at `i`.
pub open spec fn de_body_len(a: Seq<u8>, i: int) -> int {
    let s = de_size(a, i);
    if s < 5 {
        if de_type(a, i) == 0 {
            0
        } else if s == 0 {
            1
        } else if s == 1 {
            2
        } else if s == 2 {
            4
        } else if s == 3 {
            8
        } else {
            16
        }
    } else if s == 5 {
        a[i + 1] as int
    } else if s == 6 {
        be16(a[i + 1], a[i + 2])
    } else {
        be16(a[i + 1], a[i + 2]) * 65536 + be16(a[i + 3], a[i + 4])
    }
}

/// The element at `i` is a sequence or an alternative, whose body holds elements.
pub open spec fn de_is_container(a: Seq<u8>, i: int) -> bool {
    de_type(a, i) == 6 || de_type(a, i) == 7
}

/// The header at `i` has a known type, a size index that fits it, and the
/// whole element lies within `a`.
pub open spec fn de_header_ok(a: Seq<u8>, i: int) -> bool {
    let t = de_type(a, i);
    let s = de_size(a, i);
    &&& t <= 8
    &&& t == 0 ==> s == 0
    &&& (t == 4 || t == 6 || t == 7 || t == 8) == (s >= 5)
    &&& i + de_header_len(a, i) <= a.len()
    &&& i + de_header_len(a, i) + de_body_len(a, i) <= a.len()
}

/// Where the next element header after the one at `i` starts: inside the body
/// of a container, after the body of anything else.
pub open spec fn de_next(a: Seq<u8>, i: int) -> int {
    if de_is_container(a, i) {
        i + de_header_len(a, i)
    } else {
        i + de_header_len(a, i) + de_body_len(a, i)
    }
}

/// An RFCOMM protocol descriptor's elements start at `i`: the UUID16 0x0003,
/// then a uint8, the channel.
pub open spec fn rfcomm_desc_at(a: Seq<u8>, i: int) -> bool {
    i + 5 <= a.len() && a[i] == 0x19 && a[i + 1] == 0x00 && a[i + 2] == 0x03 && a[i + 3] == 0x08
}

/// Walks the element headers from `i` on: `Err` where one is malformed, else
/// the channel of the first RFCOMM descriptor met, if any.
pub open spec fn de_scan(a: Seq<u8>, i: int) -> Result<Option<u8>, ()>
    decreases a.len() - i,
{
    if i < 0 || i >= a.len() {
        Ok(None)
    } else if !de_header_ok(a, i) {
        Err(())
    } else {
        match de_scan(a, de_next(a, i)) {
            Err(_) => Err(()),
            Ok(rest) => if rfcomm_desc_at(a, i) {
                Ok(Some(a[i + 4]))
            } else {
                Ok(rest)
            },
        }
    }
}

/// Decodes the attribute lists `a`: one sequence spanning all of `a`, whose
/// elements are all well formed. Gives the RFCOMM channel of its first
/// RFCOMM protocol descriptor, `None` where it names none, and `Err` where
/// the data is malformed.
pub open spec fn decode_channel(a: Seq<u8>) -> Result<Option<u8>, ()> {
    if a.len() >= 1 && de_header_ok(a, 0) && de_is_container(a, 0) && de_header_len(a, 0)
        + de_body_len(a, 0) == a.len() {
        de_scan(a, 0)
    } else {
        Err(())
    }
}

/// What a walk that already found `found` ends with, when the rest gives `r`.
pub open spec fn join_found(found: Option<u8>, r: Result<Option<u8>, ()>) -> Result<
    Option<u8>,
    (),
> {
    match r {
        Err(_) => Err(()),
        Ok(x) => Ok(
            if found is Some {
                found
            } else {
                x
            },
        ),
    }
}

/// The transaction id that follows `tid`.
pub open spec fn next_tid(tid: u16) -> u16 {
    if tid == 0xFFFF {
        0
    } else {
        (tid + 1) as u16
    }
}

/// A fresh query of `addr` over the control socket `fd`.
pub open spec fn initial_query(addr: BtAddr, fd: i32) -> QueryModel {
    QueryModel {
        addr,
        fd,
        state: QueryState::AwaitConnect,
        tid: 0,
        request: request_pdu(0, seq![]),
        sent: 0,
        response: seq![],
        attributes: seq![],
    }
}

/// How a step ends: with a directive, an OS error, or a described failure.
pub enum StepOutcome {
    Status(QueryRFCOMMChannelStatus),
    Errno(Seq<char>, i32),
    Desc(Seq<char>),
}

/// `r` is what `out` describes.
pub open spec fn outcome_holds(
    out: StepOutcome,
    r: Result<QueryRFCOMMChannelStatus, BtError>,
) -> bool {
    match out {
        StepOutcome::Status(s) => r == Ok::<QueryRFCOMMChannelStatus, BtError>(s),
        StepOutcome::Errno(m, c) => r is Err && is_errno_error(r->Err_0, m, c),
        StepOutcome::Desc(m) => r is Err && is_desc_error(r->Err_0, m),
    }
}

/// The model after a failed step.
pub open spec fn failed(o: QueryModel) -> QueryModel {
    QueryModel { state: QueryState::Failed, ..o }
}

/// Handling of the received bytes `buf`, the response so far and what was just read.
pub open spec fn receive_step(o: QueryModel, buf: Seq<u8>) -> (QueryModel, StepOutcome) {
    if !pdu_complete(buf) {
        (
            QueryModel { response: buf, ..o },
            StepOutcome::Status(QueryRFCOMMChannelStatus::WaitReadable(o.fd)),
        )
    } else if buf.len() > 5 + param_len(buf) {
        (failed(o), StepOutcome::Desc("malformed SDP response"@))
    } else if buf[0] == SDP_ERROR_RSP {
        (failed(o), StepOutcome::Desc("SDP server rejected the request"@))
    } else if !response_ok(buf, o.tid) {
        (failed(o), StepOutcome::Desc("malformed SDP response"@))
    } else {
        let acc = o.attributes + fragment(buf);
        if acc.len() > MAX_ATTRIBUTE_DATA {
            (failed(o), StepOutcome::Desc("SDP response too large"@))
        } else if continuation(buf).len() > 0 {
            let t = next_tid(o.tid);
            (
                QueryModel {
                    state: QueryState::AwaitWritable,
                    tid: t,
                    request: request_pdu(t, continuation(buf)),
                    sent: 0,
                    response: seq![],
                    attributes: acc,
                    ..o
                },
                StepOutcome::Status(QueryRFCOMMChannelStatus::WaitWritable(o.fd)),
            )
        } else {
            match decode_channel(acc) {
                Ok(Some(ch)) => (
                    QueryModel {
                        state: QueryState::Done,
                        response: seq![],
                        attributes: acc,
                        ..o
                    },
                    StepOutcome::Status(QueryRFCOMMChannelStatus::Done(ch)),
                ),
                Ok(None) => (
                    QueryModel { state: QueryState::Failed, attributes: acc, ..o },
                    StepOutcome::Desc("serial port service not offered"@),
                ),
                Err(_) => (
                    QueryModel { state: QueryState::Failed, attributes: acc, ..o },
                    StepOutcome::Desc("malformed SDP attribute list"@),
                ),
            }
        }
    }
}

/// One step of a query in model `o` on the outcome `ev` of the operation it asked for.
pub open spec fn query_step(o: QueryModel, ev: IoEvent) -> (QueryModel, StepOutcome) {
    match o.state {
        QueryState::Done | QueryState::Failed => (
            o,
            StepOutcome::Desc("SDP query advanced after it ended"@),
        ),
        QueryState::AwaitConnect => match ev {
            IoEvent::Completed | IoEvent::InProgress => (
                QueryModel { state: QueryState::AwaitWritable, ..o },
                StepOutcome::Status(QueryRFCOMMChannelStatus::WaitWritable(o.fd)),
            ),
            IoEvent::Failed(c) => (
                failed(o),
                StepOutcome::Errno("Failed to connect() to SDP server"@, c),
            ),
            _ => (failed(o), StepOutcome::Desc("unexpected I/O outcome"@)),
        },
        QueryState::AwaitWritable => match ev {
            IoEvent::WouldBlock => (
                o,
                StepOutcome::Status(QueryRFCOMMChannelStatus::WaitWritable(o.fd)),
            ),
            IoEvent::Sent(k) => if k > o.request.len() - o.sent {
                (failed(o), StepOutcome::Desc("unexpected I/O outcome"@))
            } else if o.sent + k == o.request.len() {
                (
                    QueryModel {
                        state: QueryState::AwaitReadable,
                        sent: o.sent + k,
                        response: seq![],
                        ..o
                    },
                    StepOutcome::Status(QueryRFCOMMChannelStatus::WaitReadable(o.fd)),
                )
            } else {
                (
                    QueryModel { sent: o.sent + k, ..o },
                    StepOutcome::Status(QueryRFCOMMChannelStatus::WaitWritable(o.fd)),
                )
            },
            IoEvent::Failed(c) => (failed(o), StepOutcome::Errno("Failed to send SDP request"@, c)),
            _ => (failed(o), StepOutcome::Desc("unexpected I/O outcome"@)),
        },
        QueryState::AwaitReadable => match ev {
            IoEvent::WouldBlock => (
                o,
                StepOutcome::Status(QueryRFCOMMChannelStatus::WaitReadable(o.fd)),
            ),
            IoEvent::Received(d) => if d@.len() == 0 {
                (failed(o), StepOutcome::Desc("SDP server closed the connection"@))
            } else {
                receive_step(o, o.response + d@)
            },
            IoEvent::Failed(c) => (
                failed(o),
                StepOutcome::Errno("Failed to receive SDP response"@, c),
            ),
            _ => (failed(o), StepOutcome::Desc("unexpected I/O outcome"@)),
        },
    }
}

/// Looks up, over SDP, the RFCOMM channel of a device's serial port service.
/// The driver performs each non-blocking operation on the control socket and
/// hands its outcome to `advance`.
#[derive(Debug)]
pub struct QueryRFCOMMChannel {
    addr: BtAddr,
    fd: i32,
    state: QueryState,
    tid: u16,
    request: Vec<u8>,
    sent: usize,
    response: Vec<u8>,
    attributes: Vec<u8>,
}

impl View for QueryRFCOMMChannel {
    type V = QueryModel;

    closed spec fn view(&self) -> QueryModel {
        QueryModel {
            addr: self.addr,
            fd: self.fd,
            state: self.state,
            tid: self.tid,
            request: self.request@,
            sent: self.sent as int,
            response: self.response@,
            attributes: self.attributes@,
        }
    }
}

/// The search request PDU with transaction id `tid` carrying continuation `cont`.
fn build_request(tid: u16, cont: &[u8]) -> (r: Vec<u8>)
    requires
        cont@.len() <= MAX_CONTINUATION_LEN,
    ensures
        r@ == request_pdu(tid, cont@),
{
    let plen: usize = 13 + cont.len();
    let mut r: Vec<u8> = vec![
        SDP_SEARCH_ATTR_REQ,
        (tid / 256) as u8,
        (tid % 256) as u8,
        (plen / 256) as u8,
        (plen % 256) as u8,
        0x35,
        0x03,
        0x19,
        0x11,
        0x01,
        0xFF,
        0xFF,
        0x35,
        0x03,
        0x09,
        0x00,
        0x04,
        cont.len() as u8,
    ];
    let ghost head = r@;
    let mut i: usize = 0;
    while i < cont.len()
        invariant
            i <= cont@.len(),
            r@ == head + cont@.subrange(0, i as int),
        decreases cont@.len() - i,
    {
        r.push(cont[i]);
        i = i + 1;
        assert(r@ =~= head + cont@.subrange(0, i as int));
    }
    assert(cont@.subrange(0, cont@.len() as int) =~= cont@);
    assert(head =~= seq![SDP_SEARCH_ATTR_REQ, (tid / 256) as u8, (tid % 256) as u8, (plen / 256) as u8, (plen % 256) as u8]
        + search_params() + seq![cont@.len() as u8]);
    r
}

/// Where the element header after the one at `i` starts, or `None` where the
/// header at `i` is malformed.
fn de_step(a: &Vec<u8>, i: usize) -> (r: Option<usize>)
    requires
        i < a@.len(),
        a@.len() <= MAX_ATTRIBUTE_DATA,
    ensures
        match r {
            Some(n) => de_header_ok(a@, i as int) && n == de_next(a@, i as int),
            None => !de_header_ok(a@, i as int),
        },
{
    let d = a[i];
    let t = d / 8;
    let s = d % 8;
    if t > 8 || (t == 0 && s != 0) || ((t == 4 || t == 6 || t == 7 || t == 8) != (s >= 5)) {
        return None;
    }
    let hdr: usize = if s < 5 {
        1
    } else if s == 5 {
        2
    } else if s == 6 {
        3
    } else {
        5
    };
    if i + hdr > a.len() {
        return None;
    }
    let body: u64 = if s < 5 {
        if t == 0 {
            0
        } else if s == 0 {
            1
        } else if s == 1 {
            2
        } else if s == 2 {
            4
        } else if s == 3 {
            8
        } else {
            16
        }
    } else if s == 5 {
        a[i + 1] as u64
    } else if s == 6 {
        a[i + 1] as u64 * 256 + a[i + 2] as u64
    } else {
        (a[i + 1] as u64 * 256 + a[i + 2] as u64) * 65536 + a[i + 3] as u64 * 256
            + a[i + 4] as u64
    };
    assert(body as int == de_body_len(a@, i as int));
    if (i + hdr) as u64 + body > a.len() as u64 {
        return None;
    }
    if t == 6 || t == 7 {
        Some(i + hdr)
    } else {
        Some(i + hdr + body as usize)
    }
}

/// Decodes the attribute lists `a` down to the RFCOMM channel.
fn find_rfcomm_channel(a: &Vec<u8>) -> (r: Result<Option<u8>, ()>)
    requires
        a@.len() <= MAX_ATTRIBUTE_DATA,
    ensures
        r == decode_channel(a@),
{
    if a.len() == 0 {
        return Err(());
    }
    match de_step(a, 0) {
        None => {
            return Err(());
        },
        Some(_) => {},
    }
    let t = a[0] / 8;
    let s = a[0] % 8;
    if !(t == 6 || t == 7) {
        return Err(());
    }
    let span: u64 = if s == 5 {
        2 + a[1] as u64
    } else if s == 6 {
        3 + a[1] as u64 * 256 + a[2] as u64
    } else {
        5 + (a[1] as u64 * 256 + a[2] as u64) * 65536 + a[3] as u64 * 256 + a[4] as u64
    };
    assert(span as int == de_header_len(a@, 0) + de_body_len(a@, 0));
    if span != a.len() as u64 {
        return Err(());
    }
    let mut found: Option<u8> = None;
    let mut i: usize = 0;
    while i < a.len()
        invariant
            i <= a@.len(),
            a@.len() <= MAX_ATTRIBUTE_DATA,
            de_scan(a@, 0) == join_found(found, de_scan(a@, i as int)),
        decreases a@.len() - i,
    {
        match de_step(a, i) {
            None => {
                return Err(());
            },
            Some(n) => {
                if found.is_none() && i + 5 <= a.len() && a[i] == 0x19 && a[i + 1] == 0x00 && a[i
                    + 2] == 0x03 && a[i + 3] == 0x08 {
                    found = Some(a[i + 4]);
                }
                i = n;
            },
        }
    }
    Ok(found)
}

impl QueryRFCOMMChannel {
    /// The model's bounds, which every step keeps.
    pub open spec fn inv(&self) -> bool {
        let m = self@;
        &&& 0 <= m.sent <= m.request.len()
        &&& m.request.len() <= 64
        &&& (m.state == QueryState::AwaitConnect || m.state == QueryState::AwaitWritable)
            ==> m.sent < m.request.len()
        &&& m.response.len() <= MAX_PDU_LEN
        &&& m.attributes.len() <= MAX_ATTRIBUTE_DATA
    }

    /// A query for the device `addr` over the control socket `fd`, which the
    /// driver connects to the device's SDP server first.
    pub fn new(addr: BtAddr, fd: i32) -> (r: QueryRFCOMMChannel)
        ensures
            r.inv(),
            r@ == initial_query(addr, fd),
    {
        let empty: [u8; 0] = [];
        let request = build_request(0, &empty);
        assert(empty@ =~= Seq::<u8>::empty());
        QueryRFCOMMChannel {
            addr,
            fd,
            state: QueryState::AwaitConnect,
            tid: 0,
            request,
            sent: 0,
            response: Vec::new(),
            attributes: Vec::new(),
        }
    }

    /// The device that is queried.
    pub fn addr(&self) -> (r: BtAddr)
        ensures
            r == self@.addr,
    {
        self.addr
    }

    /// The control socket.
    pub fn fd(&self) -> (r: i32)
        ensures
            r == self@.fd,
    {
        self.fd
    }

    /// Where the query stands, and so which operation the driver performs next.
    pub fn state(&self) -> (r: QueryState)
        ensures
            r == self@.state,
    {
        self.state
    }

    /// The request bytes that remain to be sent.
    pub fn unsent(&self) -> (r: Vec<u8>)
        requires
            self.inv(),
        ensures
            r@ == self@.request.subrange(self@.sent, self@.request.len() as int),
    {
        let mut r: Vec<u8> = Vec::new();
        let mut i: usize = self.sent;
        while i < self.request.len()
            invariant
                self.sent <= i <= self.request@.len(),
                r@ == self.request@.subrange(self.sent as int, i as int),
            decreases self.request@.len() - i,
        {
            r.push(self.request[i]);
            i = i + 1;
            assert(r@ =~= self.request@.subrange(self.sent as int, i as int));
        }
        r
    }

    fn fail_desc(&mut self, message: &str) -> (r: Result<QueryRFCOMMChannelStatus, BtError>)
        ensures
            final(self)@ == failed(old(self)@),
            outcome_holds(StepOutcome::Desc(message@), r),
    {
        self.state = QueryState::Failed;
        Err(create_error_from_desc(message))
    }

    fn fail_errno(&mut self, message: &str, code: i32) -> (r: Result<
        QueryRFCOMMChannelStatus,
        BtError,
    >)
        ensures
            final(self)@ == failed(old(self)@),
            outcome_holds(StepOutcome::Errno(message@, code), r),
    {
        self.state = QueryState::Failed;
        Err(create_error_from_errno(message, code))
    }

    /// Takes the outcome of the operation that the current state asks for:
    /// connect the control socket, send the unsent request bytes, or receive.
    /// A complete response either finishes the query with the channel, or
    /// carries a continuation token, which the next request echoes.
    pub fn advance(&mut self, ev: IoEvent) -> (r: Result<QueryRFCOMMChannelStatus, BtError>)
        requires
            old(self).inv(),
        ensures
            final(self).inv(),
            final(self)@ == query_step(old(self)@, ev).0,
            outcome_holds(query_step(old(self)@, ev).1, r),
    {
        match self.state {
            QueryState::Done | QueryState::Failed => {
                Err(create_error_from_desc("SDP query advanced after it ended"))
            },
            QueryState::AwaitConnect => match ev {
                IoEvent::Completed | IoEvent::InProgress => {
                    self.state = QueryState::AwaitWritable;
                    Ok(QueryRFCOMMChannelStatus::WaitWritable(self.fd))
                },
                IoEvent::Failed(c) => self.fail_errno("Failed to connect() to SDP server", c),
                _ => self.fail_desc("unexpected I/O outcome"),
            },
            QueryState::AwaitWritable => match ev {
                IoEvent::WouldBlock => Ok(QueryRFCOMMChannelStatus::WaitWritable(self.fd)),
                IoEvent::Sent(k) => {
                    if k > self.request.len() - self.sent {
                        self.fail_desc("unexpected I/O outcome")
                    } else if self.sent + k == self.request.len() {
                        self.sent = self.sent + k;
                        self.state = QueryState::AwaitReadable;
                        self.response = Vec::new();
                        Ok(QueryRFCOMMChannelStatus::WaitReadable(self.fd))
                    } else {
                        self.sent = self.sent + k;
                        Ok(QueryRFCOMMChannelStatus::WaitWritable(self.fd))
                    }
                },
                IoEvent::Failed(c) => self.fail_errno("Failed to send SDP request", c),
                _ => self.fail_desc("unexpected I/O outcome"),
            },
            QueryState::AwaitReadable => match ev {
                IoEvent::WouldBlock => Ok(QueryRFCOMMChannelStatus::WaitReadable(self.fd)),
                IoEvent::Received(d) => {
                    if d.len() == 0 {
                        self.fail_desc("SDP server closed the connection")
                    } else {
                        self.receive(d)
                    }
                },
                IoEvent::Failed(c) => self.fail_errno("Failed to receive SDP response", c),
                _ => self.fail_desc("unexpected I/O outcome"),
            },
        }
    }

    /// Appends the bytes just read and handles a complete response.
    fn receive(&mut self, d: Vec<u8>) -> (r: Result<QueryRFCOMMChannelStatus, BtError>)
        requires
            old(self).inv(),
            old(self)@.state == QueryState::AwaitReadable,
        ensures
            final(self).inv(),
            final(self)@ == receive_step(old(self)@, old(self)@.response + d@).0,
            outcome_holds(receive_step(old(self)@, old(self)@.response + d@).1, r),
    {
        let ghost whole = self.response@ + d@;
        if d.len() > MAX_PDU_LEN {
            assert(pdu_complete(whole) && whole.len() > 5 + param_len(whole));
            return self.fail_desc("malformed SDP response");
        }
        let mut buf: Vec<u8> = Vec::new();
        let mut i: usize = 0;
        while i < self.response.len()
            invariant
                i <= self.response@.len(),
                buf@ == self.response@.subrange(0, i as int),
            decreases self.response@.len() - i,
        {
            buf.push(self.response[i]);
            i = i + 1;
            assert(buf@ =~= self.response@.subrange(0, i as int));
        }
        let mut j: usize = 0;
        while j < d.len()
            invariant
                j <= d@.len(),
                d@.len() <= MAX_PDU_LEN,
                self.response@.len() <= MAX_PDU_LEN,
                buf@ == self.response@ + d@.subrange(0, j as int),
            decreases d@.len() - j,
        {
            buf.push(d[j]);
            j = j + 1;
            assert(buf@ =~= self.response@ + d@.subrange(0, j as int));
        }
        assert(buf@ =~= whole);
        let n = buf.len();
        if n < PDU_HEADER_LEN {
            self.response = buf;
            return Ok(QueryRFCOMMChannelStatus::WaitReadable(self.fd));
        }
        let plen = (buf[3] as usize) * 256 + buf[4] as usize;
        if n < PDU_HEADER_LEN + plen {
            self.response = buf;
            Ok(QueryRFCOMMChannelStatus::WaitReadable(self.fd))
        } else if n > PDU_HEADER_LEN + plen {
            self.fail_desc("malformed SDP response")
        } else if buf[0] == SDP_ERROR_RSP {
            self.fail_desc("SDP server rejected the request")
        } else {
            self.handle_response(buf)
        }
    }

    /// Decodes the complete response PDU `p`.
    fn handle_response(&mut self, p: Vec<u8>) -> (r: Result<QueryRFCOMMChannelStatus, BtError>)
        requires
            old(self).inv(),
            old(self)@.state == QueryState::AwaitReadable,
            pdu_complete(p@),
            p@.len() == 5 + param_len(p@),
            p@[0] != SDP_ERROR_RSP,
        ensures
            final(self).inv(),
            final(self)@ == receive_step(old(self)@, p@).0,
            outcome_holds(receive_step(old(self)@, p@).1, r),
    {
        let n = p.len();
        if n < 8 || p[0] != SDP_SEARCH_ATTR_RSP || (p[1] as u16) * 256 + p[2] as u16 != self.tid {
            return self.fail_desc("malformed SDP response");
        }
        let count = (p[5] as usize) * 256 + p[6] as usize;
        if n < 8 + count {
            return self.fail_desc("malformed SDP response");
        }
        let cont_len = p[7 + count] as usize;
        if cont_len > MAX_CONTINUATION_LEN || n != 8 + count + cont_len {
            return self.fail_desc("malformed SDP response");
        }
        assert(response_ok(p@, self.tid));
        if self.attributes.len() + count > MAX_ATTRIBUTE_DATA {
            return self.fail_desc("SDP response too large");
        }
        let mut acc: Vec<u8> = Vec::new();
        let mut i: usize = 0;
        while i < self.attributes.len()
            invariant
                i <= self.attributes@.len(),
                acc@ == self.attributes@.subrange(0, i as int),
            decreases self.attributes@.len() - i,
        {
            acc.push(self.attributes[i]);
            i = i + 1;
            assert(acc@ =~= self.attributes@.subrange(0, i as int));
        }
        assert(acc@ =~= self.attributes@);
        let mut k: usize = 7;
        while k < 7 + count
            invariant
                7 <= k <= 7 + count,
                8 + count <= n,
                n == p@.len(),
                count == attr_count(p@),
                acc@ == self.attributes@ + p@.subrange(7, k as int),
                self.attributes@.len() + count <= MAX_ATTRIBUTE_DATA,
            decreases 7 + count - k,
        {
            acc.push(p[k]);
            k = k + 1;
            assert(acc@ =~= self.attributes@ + p@.subrange(7, k as int));
        }
        assert(acc@ == self.attributes@ + fragment(p@));
        if cont_len > 0 {
            let mut cont: Vec<u8> = Vec::new();
            let mut j: usize = 8 + count;
            while j < n
                invariant
                    8 + count <= j <= n,
                    n == p@.len(),
                    count == attr_count(p@),
                    cont@ == p@.subrange(8 + count, j as int),
                decreases n - j,
            {
                cont.push(p[j]);
                j = j + 1;
                assert(cont@ =~= p@.subrange(8 + count, j as int));
            }
            let t: u16 = if self.tid == 0xFFFF {
                0
            } else {
                self.tid + 1
            };
            self.request = build_request(t, cont.as_slice());
            self.tid = t;
            self.sent = 0;
            self.response = Vec::new();
            self.attributes = acc;
            self.state = QueryState::AwaitWritable;
            assert(self@.response =~= Seq::<u8>::empty());
            Ok(QueryRFCOMMChannelStatus::WaitWritable(self.fd))
        } else {
            let found = find_rfcomm_channel(&acc);
            self.attributes = acc;
            match found {
                Ok(Some(ch)) => {
                    self.response = Vec::new();
                    self.state = QueryState::Done;
                    assert(self@.response =~= Seq::<u8>::empty());
                    Ok(QueryRFCOMMChannelStatus::Done(ch))
                },
                Ok(None) => {
                    self.state = QueryState::Failed;
                    Err(create_error_from_desc("serial port service not offered"))
                },
                Err(_) => {
                    self.state = QueryState::Failed;
                    Err(create_error_from_desc("malformed SDP attribute list"))
                },
            }
        }
    }
}

/// A complete, well-formed response that carries a continuation token leads
/// to exactly one follow-up request, which echoes the token under the next
/// transaction id; one that carries none ends the query with the channel
/// named in the fragments of all rounds.
pub proof fn lemma_continuation_echoed(o: QueryModel, buf: Seq<u8>)
    requires
        pdu_complete(buf),
        buf.len() == 5 + param_len(buf),
        buf[0] != SDP_ERROR_RSP,
        response_ok(buf, o.tid),
        (o.attributes + fragment(buf)).len() <= MAX_ATTRIBUTE_DATA,
    ensures
        continuation(buf).len() > 0 ==> {
            &&& receive_step(o, buf).0.state == QueryState::AwaitWritable
            &&& receive_step(o, buf).0.request == request_pdu(next_tid(o.tid), continuation(buf))
            &&& receive_step(o, buf).0.sent == 0
            &&& receive_step(o, buf).0.attributes == o.attributes + fragment(buf)
        },
        continuation(buf).len() == 0 ==> match decode_channel(o.attributes + fragment(buf)) {
            Ok(Some(ch)) => receive_step(o, buf).1 == StepOutcome::Status(
                QueryRFCOMMChannelStatus::Done(ch),
            ),
            Ok(None) => receive_step(o, buf).1 == StepOutcome::Desc(
                "serial port service not offered"@,
            ),
            Err(_) => receive_step(o, buf).1 == StepOutcome::Desc(
                "malformed SDP attribute list"@,
            ),
        },
{
}

/// A lookup answered in two rounds: the first response carries a
/// continuation token and the second, to the follow-up, carries none. Exactly
/// one follow-up request is due, echoing the token; once it is sent and the
/// second response read, the query ends with the channel that the two
/// fragments name together.
pub proof fn lemma_two_round_lookup(o: QueryModel, d1: Vec<u8>, d2: Vec<u8>, ch: u8)
    requires
        o.state == QueryState::AwaitReadable,
        o.response.len() == 0,
        pdu_complete(d1@),
        d1@.len() == 5 + param_len(d1@),
        d1@[0] != SDP_ERROR_RSP,
        response_ok(d1@, o.tid),
        continuation(d1@).len() > 0,
        pdu_complete(d2@),
        d2@.len() == 5 + param_len(d2@),
        d2@[0] != SDP_ERROR_RSP,
        response_ok(d2@, next_tid(o.tid)),
        continuation(d2@).len() == 0,
        (o.attributes + fragment(d1@) + fragment(d2@)).len() <= MAX_ATTRIBUTE_DATA,
        decode_channel(o.attributes + fragment(d1@) + fragment(d2@)) == Ok::<Option<u8>, ()>(
            Some(ch),
        ),
    ensures
        ({
            let m1 = query_step(o, IoEvent::Received(d1)).0;
            let m2 = query_step(m1, IoEvent::Sent(m1.request.len() as usize)).0;
            &&& query_step(o, IoEvent::Received(d1)).1 == StepOutcome::Status(
                QueryRFCOMMChannelStatus::WaitWritable(o.fd),
            )
            &&& m1.state == QueryState::AwaitWritable
            &&& m1.request == request_pdu(next_tid(o.tid), continuation(d1@))
            &&& m1.sent == 0
            &&& m2.state == QueryState::AwaitReadable
            &&& query_step(m2, IoEvent::Received(d2)).1 == StepOutcome::Status(
                QueryRFCOMMChannelStatus::Done(ch),
            )
            &&& query_step(m2, IoEvent::Received(d2)).0.state == QueryState::Done
        }),
{
    assert(o.response + d1@ =~= d1@);
    let m1 = query_step(o, IoEvent::Received(d1)).0;
    assert(m1.request.len() == 18 + continuation(d1@).len());
    let m2 = query_step(m1, IoEvent::Sent(m1.request.len() as usize)).0;
    assert(m2.response + d2@ =~= d2@);
    assert(m2.attributes + fragment(d2@) =~= o.attributes + fragment(d1@) + fragment(d2@));
}

} // verus!
