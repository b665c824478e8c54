use bluetooth_serial_port_async::{
    BtAddr, BtError, IoEvent, QueryRFCOMMChannel, QueryRFCOMMChannelStatus as Status, QueryState,
};

fn search_request(tid: u16, cont: &[u8]) -> Vec<u8> {
    let plen = 13 + cont.len();
    let mut r = vec![0x06, (tid >> 8) as u8, tid as u8, (plen >> 8) as u8, plen as u8];
    r.extend_from_slice(&[0x35, 0x03, 0x19, 0x11, 0x01, 0xFF, 0xFF, 0x35, 0x03, 0x09, 0x00, 0x04]);
    r.push(cont.len() as u8);
    r.extend_from_slice(cont);
    r
}

fn search_response(tid: u16, fragment: &[u8], cont: &[u8]) -> Vec<u8> {
    let plen = 2 + fragment.len() + 1 + cont.len();
    let mut r = vec![0x07, (tid >> 8) as u8, tid as u8, (plen >> 8) as u8, plen as u8];
    r.push((fragment.len() >> 8) as u8);
    r.push(fragment.len() as u8);
    r.extend_from_slice(fragment);
    r.push(cont.len() as u8);
    r.extend_from_slice(cont);
    r
}

/// Attribute lists of one record whose protocol descriptor list names
/// L2CAP, then RFCOMM on `channel`.
fn attribute_lists(channel: u8) -> Vec<u8> {
    vec![
        0x35, 0x13, 0x35, 0x11, 0x09, 0x00, 0x04, 0x35, 0x0C, 0x35, 0x03, 0x19, 0x01, 0x00,
        0x35, 0x05, 0x19, 0x00, 0x03, 0x08, channel,
    ]
}

fn connected_query() -> QueryRFCOMMChannel {
    let mut q = QueryRFCOMMChannel::new(BtAddr([1, 2, 3, 4, 5, 6]), 7);
    assert_eq!(q.state(), QueryState::AwaitConnect);
    assert_eq!(q.advance(IoEvent::InProgress).unwrap(), Status::WaitWritable(7));
    q
}

fn send_all(q: &mut QueryRFCOMMChannel) -> Vec<u8> {
    let bytes = q.unsent();
    assert_eq!(q.advance(IoEvent::Sent(bytes.len())).unwrap(), Status::WaitReadable(7));
    bytes
}

#[test]
fn query_follows_continuation_once() {
    let lists = attribute_lists(5);
    let (first, second) = lists.split_at(10);
    let token = [0xAA, 0xBB];
    let mut q = connected_query();

    let request = q.unsent();
    assert_eq!(request, search_request(0, &[]));
    assert_eq!(q.advance(IoEvent::Sent(4)).unwrap(), Status::WaitWritable(7));
    assert_eq!(q.unsent(), request[4..].to_vec());
    assert_eq!(q.advance(IoEvent::WouldBlock).unwrap(), Status::WaitWritable(7));
    send_all(&mut q);

    let reply = search_response(0, first, &token);
    let (a, b) = reply.split_at(3);
    assert_eq!(q.advance(IoEvent::WouldBlock).unwrap(), Status::WaitReadable(7));
    assert_eq!(q.advance(IoEvent::Received(a.to_vec())).unwrap(), Status::WaitReadable(7));
    assert_eq!(q.advance(IoEvent::Received(b.to_vec())).unwrap(), Status::WaitWritable(7));

    let follow_up = send_all(&mut q);
    assert_eq!(follow_up, search_request(1, &token));

    let last = search_response(1, second, &[]);
    assert_eq!(q.advance(IoEvent::Received(last)).unwrap(), Status::Done(5));
    assert_eq!(q.state(), QueryState::Done);
}

#[test]
fn query_reports_missing_service() {
    let mut q = connected_query();
    send_all(&mut q);
    let reply = search_response(0, &[0x35, 0x00], &[]);
    match q.advance(IoEvent::Received(reply)) {
        Err(BtError::Desc(m)) => assert_eq!(m, "serial port service not offered"),
        other => panic!("unexpected {:?}", other),
    }
    assert_eq!(q.state(), QueryState::Failed);
}

#[test]
fn query_reports_error_response() {
    let mut q = connected_query();
    send_all(&mut q);
    match q.advance(IoEvent::Received(vec![0x01, 0x00, 0x00, 0x00, 0x02, 0x00, 0x03])) {
        Err(BtError::Desc(m)) => assert_eq!(m, "SDP server rejected the request"),
        other => panic!("unexpected {:?}", other),
    }
}

#[test]
fn query_rejects_malformed_responses() {
    let cases = [
        // longer than its header says
        vec![0x07, 0x00, 0x00, 0x00, 0x03, 0x00, 0x00, 0x00, 0x00],
        // wrong transaction id
        search_response(9, &attribute_lists(3), &[]),
        // wrong PDU identifier
        vec![0x05, 0x00, 0x00, 0x00, 0x03, 0x00, 0x00, 0x00],
        // byte count beyond the PDU
        vec![0x07, 0x00, 0x00, 0x00, 0x03, 0x00, 0x09, 0x00],
        // continuation token too long
        search_response(0, &[], &[0u8; 17]),
    ];
    for reply in cases.iter() {
        let mut q = connected_query();
        send_all(&mut q);
        match q.advance(IoEvent::Received(reply.clone())) {
            Err(BtError::Desc(m)) => assert_eq!(m, "malformed SDP response"),
            other => panic!("unexpected {:?} for {:?}", other, reply),
        }
    }
}

#[test]
fn query_reports_closed_connection_and_os_errors() {
    let mut q = connected_query();
    send_all(&mut q);
    match q.advance(IoEvent::Received(Vec::new())) {
        Err(BtError::Desc(m)) => assert_eq!(m, "SDP server closed the connection"),
        other => panic!("unexpected {:?}", other),
    }

    let mut q = QueryRFCOMMChannel::new(BtAddr::any(), 4);
    match q.advance(IoEvent::Failed(112)) {
        Err(BtError::Errno(112, m)) => {
            assert!(m.starts_with("Failed to connect() to SDP server: "), "{}", m)
        },
        other => panic!("unexpected {:?}", other),
    }

    let mut q = connected_query();
    match q.advance(IoEvent::Sent(1000)) {
        Err(BtError::Desc(m)) => assert_eq!(m, "unexpected I/O outcome"),
        other => panic!("unexpected {:?}", other),
    }
}

#[test]
fn query_refuses_steps_after_it_ended() {
    let mut q = connected_query();
    send_all(&mut q);
    let reply = search_response(0, &attribute_lists(12), &[]);
    assert_eq!(q.advance(IoEvent::Received(reply)).unwrap(), Status::Done(12));
    match q.advance(IoEvent::WouldBlock) {
        Err(BtError::Desc(m)) => assert_eq!(m, "SDP query advanced after it ended"),
        other => panic!("unexpected {:?}", other),
    }
    assert_eq!(q.state(), QueryState::Done);
}

#[test]
fn query_ignores_descriptor_bytes_inside_a_string() {
    let mut q = connected_query();
    send_all(&mut q);
    let lists = [0x35, 0x07, 0x25, 0x05, 0x19, 0x00, 0x03, 0x08, 0x05];
    match q.advance(IoEvent::Received(search_response(0, &lists, &[]))) {
        Err(BtError::Desc(m)) => assert_eq!(m, "serial port service not offered"),
        other => panic!("unexpected {:?}", other),
    }
}

#[test]
fn query_rejects_malformed_attribute_lists() {
    let cases: [&[u8]; 5] = [
        // outer sequence longer than the data
        &[0x35, 0x05, 0x19, 0x00, 0x03, 0x08],
        // inner element runs past the end
        &[0x35, 0x02, 0x09, 0x00],
        // not a sequence
        &[0x19, 0x00, 0x03],
        // reserved element type
        &[0x35, 0x01, 0xF8],
        // nothing at all
        &[],
    ];
    for lists in cases.iter() {
        let mut q = connected_query();
        send_all(&mut q);
        match q.advance(IoEvent::Received(search_response(0, lists, &[]))) {
            Err(BtError::Desc(m)) => assert_eq!(m, "malformed SDP attribute list"),
            other => panic!("unexpected {:?} for {:?}", other, lists),
        }
    }
}

#[test]
fn query_reads_long_form_sequences() {
    let mut q = connected_query();
    send_all(&mut q);
    let lists = [
        0x36, 0x00, 0x16, 0x35, 0x14, 0x09, 0x00, 0x04, 0x37, 0x00, 0x00, 0x00, 0x0C, 0x35, 0x03,
        0x19, 0x01, 0x00, 0x35, 0x05, 0x19, 0x00, 0x03, 0x08, 0x1E,
    ];
    assert_eq!(q.advance(IoEvent::Received(search_response(0, &lists, &[]))).unwrap(), Status::Done(30));
}
