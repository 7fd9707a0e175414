//! Decoding of received datagrams and their classification.
use vstd::prelude::*;
use crate::error::PingError;
use crate::packet::{word_at, ICMPEchoRequestHeader};

verus! {

/// ICMP message type of an Echo Reply.
pub const ECHO_REPLY_TYPE: u8 = 0;

/// Shortest IPv4 header.
pub const MIN_IP_HEADER_LEN: usize = 20;

/// Length of the ICMP echo header.
pub const ICMP_HEADER_LEN: usize = 8;

/// Offset of the TTL byte in an IPv4 header.
pub const IP_TTL_OFFSET: usize = 8;

/// Where the ICMP message starts: after the IP header when the buffer holds
/// one (its length is the low nibble of the first byte, in 32-bit words).
pub open spec fn icmp_offset(b: Seq<u8>, ip_header_present: bool) -> int {
    if ip_header_present {
        (b[0] % 16) as int * 4
    } else {
        0
    }
}

/// The buffer is long enough for its IP header (when present, at least 20
/// bytes) and an 8-byte ICMP header after it.
pub open spec fn is_decodable(b: Seq<u8>, ip_header_present: bool) -> bool {
    if ip_header_present {
        &&& b.len() >= 1
        &&& icmp_offset(b, true) >= MIN_IP_HEADER_LEN
        &&& b.len() >= icmp_offset(b, true) + ICMP_HEADER_LEN
    } else {
        b.len() >= ICMP_HEADER_LEN
    }
}

/// A received buffer counts as a successful probe: it decodes and its ICMP
/// type is Echo Reply, whatever its code.
pub open spec fn probe_succeeds(b: Seq<u8>, ip_header_present: bool) -> bool {
    is_decodable(b, ip_header_present) && b[icmp_offset(b, ip_header_present)] == ECHO_REPLY_TYPE
}

/// A well-formed IPv4 header: its length nibble gives its length, at least 20.
pub open spec fn is_ip_header(p: Seq<u8>) -> bool {
    p.len() >= MIN_IP_HEADER_LEN && p.len() == (p[0] % 16) as int * 4
}

/// The parsed view of one received datagram.
pub struct EchoReply {
    pub raw_bytes: Vec<u8>,
    pub ip_header_length: usize,
    pub icmp_type: u8,
    pub icmp_code: u8,
    pub identifier: u16,
    pub sequence_number: u16,
    /// The TTL byte of the IP header, when the buffer holds one.
    pub ttl: Option<u8>,
}

impl EchoReply {
    /// The fields are those read from `b` at the offsets of the layout.
    pub open spec fn decodes(&self, b: Seq<u8>, ip_header_present: bool) -> bool {
        let h = icmp_offset(b, ip_header_present);
        &&& self.raw_bytes@ == b
        &&& self.ip_header_length == h
        &&& self.icmp_type == b[h]
        &&& self.icmp_code == b[h + 1]
        &&& self.identifier == word_at(b, h + 4)
        &&& self.sequence_number == word_at(b, h + 6)
        &&& self.ttl == (if ip_header_present {
            Some(b[IP_TTL_OFFSET as int])
        } else {
            None
        })
    }

    /// Whether this is an Echo Reply; the code is not looked at.
    pub fn is_echo_reply(&self) -> (r: bool)
        ensures
            r == (self.icmp_type == ECHO_REPLY_TYPE),
    {
        self.icmp_type == ECHO_REPLY_TYPE
    }
}

fn read_be_word(b: &Vec<u8>, i: usize) -> (r: u16)
    requires
        i < b.len() - 1,
    ensures
        r == word_at(b@, i as int),
{
    (b[i] as u16) * 256 + b[i + 1] as u16
}

/// Splits a received buffer into its IP header (when the socket hands one
/// over) and its ICMP fields.
pub fn decode(raw_bytes: Vec<u8>, ip_header_present: bool) -> (r: Result<EchoReply, PingError>)
    ensures
        r is Ok <==> is_decodable(raw_bytes@, ip_header_present),
        match r {
            Ok(reply) => reply.decodes(raw_bytes@, ip_header_present),
            Err(e) => e == PingError::MalformedPacket,
        },
{
    let n = raw_bytes.len();
    let mut h: usize = 0;
    let mut ttl: Option<u8> = None;
    if ip_header_present {
        if n < 1 {
            return Err(PingError::MalformedPacket);
        }
        h = ((raw_bytes[0] % 16) as usize) * 4;
        if h < MIN_IP_HEADER_LEN || n < h + ICMP_HEADER_LEN {
            return Err(PingError::MalformedPacket);
        }
        ttl = Some(raw_bytes[IP_TTL_OFFSET]);
    } else if n < ICMP_HEADER_LEN {
        return Err(PingError::MalformedPacket);
    }
    let icmp_type = raw_bytes[h];
    let icmp_code = raw_bytes[h + 1];
    let identifier = read_be_word(&raw_bytes, h + 4);
    let sequence_number = read_be_word(&raw_bytes, h + 6);
    Ok(EchoReply {
        raw_bytes,
        ip_header_length: h,
        icmp_type,
        icmp_code,
        identifier,
        sequence_number,
        ttl,
    })
}

/// What one probe came to.
#[derive(Debug, Clone, Copy, PartialEq, Eq, Structural)]
pub enum ProbeOutcome {
    /// An Echo Reply came back: its size in bytes and the TTL it carried.
    Success { bytes_received: usize, ttl: u8 },
    /// No reply within the receive timeout.
    TimedOut,
    /// Something came back that is not a valid Echo Reply.
    InvalidResponse,
}

/// The outcome of a probe whose reply is `b`: a success iff `b` decodes to an
/// Echo Reply, reporting its length and its TTL (from the IP header when `b`
/// holds one, else the one the transport read).
pub open spec fn classification(b: Seq<u8>, ip_header_present: bool, ancillary_ttl: u8) -> ProbeOutcome {
    if probe_succeeds(b, ip_header_present) {
        ProbeOutcome::Success {
            bytes_received: b.len() as usize,
            ttl: if ip_header_present {
                b[IP_TTL_OFFSET as int]
            } else {
                ancillary_ttl
            },
        }
    } else {
        ProbeOutcome::InvalidResponse
    }
}

/// Classifies a received buffer. The TTL is that of the IP header when the
/// buffer holds one, else `ancillary_ttl` (0 when the transport had none).
pub fn classify_reply(raw_bytes: Vec<u8>, ip_header_present: bool, ancillary_ttl: u8) -> (r:
    ProbeOutcome)
    ensures
        r == classification(raw_bytes@, ip_header_present, ancillary_ttl),
        r is Success <==> probe_succeeds(raw_bytes@, ip_header_present),
        r is Success ==> r == (ProbeOutcome::Success {
            bytes_received: raw_bytes@.len() as usize,
            ttl: if ip_header_present {
                raw_bytes@[IP_TTL_OFFSET as int]
            } else {
                ancillary_ttl
            },
        }),
        !(r is Success) ==> r == ProbeOutcome::InvalidResponse,
{
    let n = raw_bytes.len();
    match decode(raw_bytes, ip_header_present) {
        Ok(reply) => {
            if reply.is_echo_reply() {
                let ttl = match reply.ttl {
                    Some(t) => t,
                    None => ancillary_ttl,
                };
                ProbeOutcome::Success { bytes_received: n, ttl }
            } else {
                ProbeOutcome::InvalidResponse
            }
        },
        Err(_) => ProbeOutcome::InvalidResponse,
    }
}

/// Round trip: decoding an encoded request, behind a well-formed IP header or
/// with none, gives back its identifier and sequence number.
pub proof fn lemma_decode_encode_round_trip(
    h: ICMPEchoRequestHeader,
    ip_header: Seq<u8>,
    ip_header_present: bool,
)
    requires
        ip_header_present ==> is_ip_header(ip_header),
        !ip_header_present ==> ip_header.len() == 0,
    ensures
        ({
            let b = ip_header + h.encoded();
            let o = icmp_offset(b, ip_header_present);
            &&& is_decodable(b, ip_header_present)
            &&& o == ip_header.len()
            &&& word_at(b, o + 4) == h.identifier
            &&& word_at(b, o + 6) == h.sequence_number
        }),
{
    let b = ip_header + h.encoded();
    if ip_header_present {
        assert(b[0] == ip_header[0]);
    }
    let o = icmp_offset(b, ip_header_present);
    assert(o == ip_header.len());
    assert(b[o + 4] == h.encoded()[4]);
    assert(b[o + 5] == h.encoded()[5]);
    assert(b[o + 6] == h.encoded()[6]);
    assert(b[o + 7] == h.encoded()[7]);
}

} // verus!
