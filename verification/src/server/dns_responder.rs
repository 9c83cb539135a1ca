//! A DNS responder that answers every query with one address.
//!
//! The responder does not own a socket. Whoever owns it hands over what the
//! socket delivered and sends what the responder hands back.

use crate::error::AppError;
use vstd::prelude::*;

verus! {

/// The size above which a datagram is dropped unless another limit is chosen.
pub const MAX_QUERY_LEN: usize = 100;

/// How long one receive on the socket waits for a datagram, in milliseconds.
pub const READ_TIMEOUT_MS: u64 = 10;

/// How long the responder's loop sleeps between two receives, in
/// milliseconds.
pub const LOOP_PAUSE_MS: u64 = 100;

/// The port on which DNS queries arrive.
pub const DNS_PORT: u16 = 53;

/// The length of the header of a DNS packet.
pub const HEADER_LEN: usize = 12;

/// In the first flag byte of a header, byte 2: the packet is a response.
pub const FLAG_RESPONSE: u8 = 0x80;

/// In the first flag byte of a header, byte 2: the answer is authoritative.
pub const FLAG_AUTHORITATIVE: u8 = 0x04;

/// In the second flag byte of a header, byte 3: recursion is available.
pub const FLAG_RECURSION_AVAILABLE: u8 = 0x80;

/// The length of the answer record that follows the query in a reply.
pub const ANSWER_LEN: usize = 16;

/// The answer record for an address: a pointer to the name at offset 12,
/// type A, class IN, a time to live of ten seconds, a data length of four and
/// the four octets.
pub open spec fn answer_record(octets: Seq<u8>) -> Seq<u8> {
    seq![0xc0u8, 0x0c, 0x00, 0x01, 0x00, 0x01, 0x00, 0x00, 0x00, 0x0a, 0x00, 0x04] + octets
}

/// Byte `i` of the query as it stands in the reply. In byte 2 the response
/// flag and the authoritative-answer flag are set, in byte 3 the flag that
/// recursion is available; the other flags stay as they came. The answer
/// count, bytes 6 and 7, is 1. Every other byte is the query's own.
pub open spec fn answered_byte(query: Seq<u8>, i: int) -> u8 {
    if i == 2 {
        query[i] | 0x84
    } else if i == 3 {
        query[i] | 0x80
    } else if i == 6 {
        0
    } else if i == 7 {
        1
    } else {
        query[i]
    }
}

/// The reply to a query: the query with its header marked as answered,
/// followed by the answer record.
pub open spec fn reply_to(query: Seq<u8>, octets: Seq<u8>) -> Seq<u8> {
    Seq::new(query.len(), |i: int| answered_byte(query, i)) + answer_record(octets)
}

/// The number of answers that the header of a packet announces.
pub open spec fn answer_count(packet: Seq<u8>) -> int
    recommends
        packet.len() >= 12,
{
    packet[6] as int * 256 + packet[7] as int
}

/// What one receive on the socket came back with.
#[derive(Clone, Debug)]
pub enum Received {
    /// A datagram arrived; these are its bytes.
    Datagram(Vec<u8>),
    /// Nothing arrived before the read timeout.
    TimedOut,
    /// The receive failed for another reason, described by the text.
    Failed(String),
}

/// What to do after one receive.
#[derive(Clone, Debug)]
pub enum Handled {
    /// Send these bytes back to the sender of the datagram.
    Reply(Vec<u8>),
    /// Nothing arrived: nothing to do.
    Idle,
    /// The datagram had this many bytes, more than the limit: it is not answered.
    Dropped(usize),
}

/// Answers every DNS query with the address it was made for.
#[derive(Debug)]
pub struct DnsResponder {
    response_footer: [u8; 16],
    max_query_len: usize,
}

impl DnsResponder {
    #[verifier::type_invariant]
    spec fn footer_is_answer_record(self) -> bool {
        self.response_footer@ == answer_record(self.response_footer@.subrange(12, 16))
    }

    /// The four octets of the address given in every answer.
    pub closed spec fn address(self) -> Seq<u8> {
        self.response_footer@.subrange(12, 16)
    }

    /// The size above which a datagram is dropped.
    pub closed spec fn limit(self) -> int {
        self.max_query_len as int
    }

    /// The reply owed to a query, if any: none when the query is longer
    /// than the limit.
    pub open spec fn response(self, query: Seq<u8>) -> Option<Seq<u8>> {
        if query.len() > self.limit() {
            None
        } else {
            Some(reply_to(query, self.address()))
        }
    }

    /// A responder that answers with `ip_address` and drops datagrams of more
    /// than `MAX_QUERY_LEN` bytes.
    pub fn init(ip_address: [u8; 4]) -> (responder: Self)
        ensures
            responder.address() == ip_address@,
            responder.limit() == MAX_QUERY_LEN,
    {
        Self::with_limit(ip_address, MAX_QUERY_LEN)
    }

    /// A responder that answers with `ip_address` and drops datagrams of more
    /// than `max_query_len` bytes.
    pub fn with_limit(ip_address: [u8; 4], max_query_len: usize) -> (responder: Self)
        ensures
            responder.address() == ip_address@,
            responder.limit() == max_query_len,
    {
        let response_footer: [u8; 16] = [
            0xc0,
            0x0c,
            0x00,
            0x01,
            0x00,
            0x01,
            0x00,
            0x00,
            0x00,
            0x0a,
            0x00,
            0x04,
            ip_address[0],
            ip_address[1],
            ip_address[2],
            ip_address[3],
        ];
        assert(response_footer@.subrange(12, 16) =~= ip_address@);
        assert(response_footer@ =~= answer_record(ip_address@));
        DnsResponder { response_footer, max_query_len }
    }

    /// Decides what follows one receive. A datagram within the limit is
    /// answered, whatever it holds; a longer one is dropped; a timeout is the
    /// idle case and no error; any other failure is handed up.
    pub fn handle_requests(&self, received: Received) -> (result: Result<Handled, AppError>)
        ensures
            match received {
                Received::Datagram(query) => match self.response(query@) {
                    Some(reply) => result matches Ok(Handled::Reply(bytes)) && bytes@ == reply,
                    None => result matches Ok(Handled::Dropped(len)) && len == query.len(),
                },
                Received::TimedOut => result matches Ok(Handled::Idle),
                Received::Failed(reason) => result matches Err(AppError::StdIO(text)) && text
                    == reason,
            },
    {
        match received {
            Received::Datagram(query) => {
                if query.len() > self.max_query_len {
                    Ok(Handled::Dropped(query.len()))
                } else {
                    Ok(Handled::Reply(self.answer(&query)))
                }
            },
            Received::TimedOut => Ok(Handled::Idle),
            Received::Failed(reason) => Err(AppError::StdIO(reason)),
        }
    }

    /// Builds the reply to a query of any length.
    fn answer(&self, query: &Vec<u8>) -> (reply: Vec<u8>)
        ensures
            reply@ == reply_to(query@, self.address()),
    {
        proof {
            use_type_invariant(self);
        }
        let mut reply: Vec<u8> = Vec::new();
        let mut i: usize = 0;
        while i < query.len()
            invariant
                i <= query.len(),
                reply@ == Seq::new(i as nat, |k: int| answered_byte(query@, k)),
            decreases query.len() - i,
        {
            let byte: u8 = if i == 2 {
                query[i] | 0x84
            } else if i == 3 {
                query[i] | 0x80
            } else if i == 6 {
                0
            } else if i == 7 {
                1
            } else {
                query[i]
            };
            reply.push(byte);
            i += 1;
        }
        let mut j: usize = 0;
        while j < 16
            invariant
                j <= 16,
                reply@ == Seq::new(query@.len(), |k: int| answered_byte(query@, k))
                    + self.response_footer@.subrange(0, j as int),
            decreases 16 - j,
        {
            reply.push(self.response_footer[j]);
            j += 1;
        }
        assert(self.response_footer@.subrange(0, 16) =~= self.response_footer@);
        reply
    }
}

/// Every datagram within the limit that holds a full header, and so every
/// well-formed query, is answered, and the answer says the same thing
/// whatever was asked: the response flag and the authoritative-answer flag
/// are set, and so is the flag that recursion is available; exactly one
/// answer is announced; the question is repeated unchanged; and the last four
/// bytes are the responder's address.
pub proof fn lemma_universal_answer(responder: DnsResponder, query: Seq<u8>)
    requires
        query.len() >= HEADER_LEN,
        query.len() <= responder.limit(),
    ensures
        responder.response(query) matches Some(reply) && {
            &&& reply.len() == query.len() + ANSWER_LEN
            &&& reply[2] & FLAG_RESPONSE == FLAG_RESPONSE
            &&& reply[2] & FLAG_AUTHORITATIVE == FLAG_AUTHORITATIVE
            &&& reply[2] & 0x84 == 0x84
            &&& reply[3] & FLAG_RECURSION_AVAILABLE == FLAG_RECURSION_AVAILABLE
            &&& reply[6] == 0
            &&& reply[7] == 1
            &&& answer_count(reply) == 1
            &&& forall|i: int| 0 <= i < query.len() && i != 2 && i != 3 && i != 6 && i != 7
                ==> reply[i] == query[i]
            &&& reply.subrange(query.len() as int, reply.len() as int) == answer_record(
                responder.address(),
            )
            &&& reply.subrange(reply.len() - 4, reply.len() as int) == responder.address()
        },
{
    let reply = reply_to(query, responder.address());
    let a = query[2];
    let b = query[3];
    assert((a | 0x84) & 0x80 == 0x80) by (bit_vector);
    assert((a | 0x84) & 0x04 == 0x04) by (bit_vector);
    assert((a | 0x84) & 0x84 == 0x84) by (bit_vector);
    assert((b | 0x80) & 0x80 == 0x80) by (bit_vector);
    assert(reply[2] == answered_byte(query, 2));
    assert(reply[3] == answered_byte(query, 3));
    assert(reply[6] == answered_byte(query, 6));
    assert(reply[7] == answered_byte(query, 7));
    assert(reply.subrange(query.len() as int, reply.len() as int) =~= answer_record(
        responder.address(),
    ));
    assert(reply.subrange(reply.len() - 4, reply.len() as int) =~= responder.address());
}

/// A datagram longer than the limit is never answered.
pub proof fn lemma_oversized_dropped(responder: DnsResponder, query: Seq<u8>)
    requires
        query.len() > responder.limit(),
    ensures
        responder.response(query) is None,
{
}

} // verus!
