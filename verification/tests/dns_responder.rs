use esp_clock::error::AppError;
use esp_clock::server::dns_responder::{
    DnsResponder, Handled, Received, ANSWER_LEN, DNS_PORT, FLAG_AUTHORITATIVE,
    FLAG_RECURSION_AVAILABLE, FLAG_RESPONSE, HEADER_LEN, LOOP_PAUSE_MS, MAX_QUERY_LEN,
    READ_TIMEOUT_MS,
};

/// A query for `example.com`, type A, class IN, as a resolver sends it.
fn example_com_query() -> Vec<u8> {
    let mut q = vec![
        0x12, 0x34, // id
        0x01, 0x00, // flags: recursion desired
        0x00, 0x01, // one question
        0x00, 0x00, // no answers
        0x00, 0x00, // no authority records
        0x00, 0x00, // no additional records
    ];
    q.push(7);
    q.extend_from_slice(b"example");
    q.push(3);
    q.extend_from_slice(b"com");
    q.push(0);
    q.extend_from_slice(&[0x00, 0x01, 0x00, 0x01]);
    q
}

fn reply_of(responder: &DnsResponder, query: Vec<u8>) -> Vec<u8> {
    match responder.handle_requests(Received::Datagram(query)) {
        Ok(Handled::Reply(bytes)) => bytes,
        _ => panic!("the query was not answered"),
    }
}

#[test]
fn answers_example_com_with_own_address() {
    let responder = DnsResponder::init([192, 168, 71, 1]);
    let query = example_com_query();
    let reply = reply_of(&responder, query.clone());

    let mut expected = query.clone();
    expected[2] = 0x85;
    expected[3] = 0x80;
    expected[6] = 0x00;
    expected[7] = 0x01;
    expected.extend_from_slice(&[
        0xc0, 0x0c, 0x00, 0x01, 0x00, 0x01, 0x00, 0x00, 0x00, 0x0a, 0x00, 0x04, 192, 168, 71, 1,
    ]);
    assert_eq!(reply, expected);
}

#[test]
fn reply_marks_header_and_appends_address() {
    let responder = DnsResponder::init([10, 0, 0, 7]);
    let query = example_com_query();
    let reply = reply_of(&responder, query.clone());

    assert_eq!(reply.len(), query.len() + ANSWER_LEN);
    assert_eq!(reply[2] & FLAG_RESPONSE, FLAG_RESPONSE);
    assert_eq!(reply[2] & FLAG_AUTHORITATIVE, FLAG_AUTHORITATIVE);
    assert_eq!(reply[2] & 0x84, 0x84);
    assert_eq!(reply[3] & FLAG_RECURSION_AVAILABLE, FLAG_RECURSION_AVAILABLE);
    assert_eq!(u16::from_be_bytes([reply[6], reply[7]]), 1);
    assert_eq!(&reply[12..query.len()], &query[12..]);
    assert_eq!(&reply[reply.len() - 4..], &[10, 0, 0, 7]);
    // The identifier and the question count are the query's own.
    assert_eq!(&reply[0..2], &query[0..2]);
    assert_eq!(&reply[4..6], &query[4..6]);
}

#[test]
fn query_of_exactly_the_limit_is_answered() {
    let responder = DnsResponder::init([192, 168, 71, 1]);
    let query = vec![0u8; MAX_QUERY_LEN];
    let reply = reply_of(&responder, query);
    assert_eq!(reply.len(), MAX_QUERY_LEN + ANSWER_LEN);
    assert_eq!(reply[2], 0x84);
    assert_eq!(reply[3], 0x80);
    assert_eq!(reply[6], 0x00);
    assert_eq!(reply[7], 0x01);
}

#[test]
fn oversized_query_is_dropped() {
    let responder = DnsResponder::init([192, 168, 71, 1]);
    let query = vec![0u8; MAX_QUERY_LEN + 1];
    match responder.handle_requests(Received::Datagram(query)) {
        Ok(Handled::Dropped(len)) => assert_eq!(len, 101),
        _ => panic!("an oversized query must be dropped"),
    }
    let query = vec![0xffu8; 128];
    assert!(matches!(
        responder.handle_requests(Received::Datagram(query)),
        Ok(Handled::Dropped(128))
    ));
}

#[test]
fn short_and_empty_datagrams_are_answered_too() {
    let responder = DnsResponder::init([1, 2, 3, 4]);
    let footer = [0xc0, 0x0c, 0x00, 0x01, 0x00, 0x01, 0x00, 0x00, 0x00, 0x0a, 0x00, 0x04, 1, 2, 3, 4];

    let reply = reply_of(&responder, Vec::new());
    assert_eq!(reply, footer.to_vec());

    let reply = reply_of(&responder, vec![0xaa, 0xbb, 0x01]);
    let mut expected = vec![0xaa, 0xbb, 0x85];
    expected.extend_from_slice(&footer);
    assert_eq!(reply, expected);
}

#[test]
fn timeout_is_idle_and_no_error() {
    let responder = DnsResponder::init([192, 168, 71, 1]);
    assert!(matches!(responder.handle_requests(Received::TimedOut), Ok(Handled::Idle)));
}

#[test]
fn other_failures_are_handed_up() {
    let responder = DnsResponder::init([192, 168, 71, 1]);
    match responder.handle_requests(Received::Failed("connection reset".to_string())) {
        Err(AppError::StdIO(text)) => assert_eq!(text, "connection reset"),
        _ => panic!("a failed receive must be an error"),
    }
}

#[test]
fn chosen_limit_is_respected() {
    let responder = DnsResponder::with_limit([192, 168, 71, 1], 12);
    assert!(matches!(
        responder.handle_requests(Received::Datagram(vec![0u8; 13])),
        Ok(Handled::Dropped(13))
    ));
    assert_eq!(reply_of(&responder, vec![0u8; 12]).len(), 28);
}

#[test]
fn responder_listens_on_port_53_and_stays_responsive() {
    assert_eq!(DNS_PORT, 53);
    assert_eq!(READ_TIMEOUT_MS, 10);
    assert_eq!(LOOP_PAUSE_MS, 100);
    assert_eq!(MAX_QUERY_LEN, 100);
    assert_eq!(ANSWER_LEN, 16);
}

#[test]
fn answer_count_is_one_whatever_the_query_announced() {
    let responder = DnsResponder::init([192, 168, 71, 1]);
    for (high, low) in [(0u8, 0u8), (0, 1), (1, 0), (0xff, 0xff), (0x12, 0x34)] {
        let mut query = example_com_query();
        query[6] = high;
        query[7] = low;
        let reply = reply_of(&responder, query);
        assert_eq!(u16::from_be_bytes([reply[6], reply[7]]), 1);
    }
}

#[test]
fn flags_are_set_and_the_others_kept() {
    let responder = DnsResponder::init([192, 168, 71, 1]);
    for (first, second) in [(0x00u8, 0x00u8), (0x01, 0x00), (0x7b, 0x7f), (0xff, 0xff), (0x84, 0x80)] {
        let mut query = example_com_query();
        query[2] = first;
        query[3] = second;
        let reply = reply_of(&responder, query);
        assert_eq!(reply[2], first | 0x84);
        assert_eq!(reply[3], second | 0x80);
    }
}

#[test]
fn everything_but_flags_and_answer_count_is_the_query() {
    let responder = DnsResponder::init([192, 168, 71, 1]);
    let query: Vec<u8> = (0..100u8).map(|i| i.wrapping_mul(37).wrapping_add(11)).collect();
    let reply = reply_of(&responder, query.clone());
    for i in 0..query.len() {
        if ![2, 3, 6, 7].contains(&i) {
            assert_eq!(reply[i], query[i], "byte {i}");
        }
    }
    assert_eq!(HEADER_LEN, 12);
    assert_eq!((FLAG_RESPONSE, FLAG_AUTHORITATIVE, FLAG_RECURSION_AVAILABLE), (0x80, 0x04, 0x80));
}

#[test]
fn datagram_shorter_than_the_header_is_marked_as_far_as_it_goes() {
    let responder = DnsResponder::init([1, 2, 3, 4]);
    let footer = [0xc0, 0x0c, 0x00, 0x01, 0x00, 0x01, 0x00, 0x00, 0x00, 0x0a, 0x00, 0x04, 1, 2, 3, 4];
    let reply = reply_of(&responder, vec![9, 9, 0, 0, 9, 9, 9]);
    let mut expected = vec![9, 9, 0x84, 0x80, 9, 9, 0];
    expected.extend_from_slice(&footer);
    assert_eq!(reply, expected);
}
