//! ICMP Echo Request layout, the Internet checksum and the wire encoding.
use vstd::prelude::*;

verus! {

/// ICMP message type of an Echo Request.
pub const ECHO_REQUEST_TYPE: u8 = 8;

/// Identifier that marks every probe of this sender.
pub const ECHO_IDENTIFIER: u16 = 12;

/// Length of an encoded Echo Request: 8 header bytes and 4 payload bytes.
pub const ECHO_REQUEST_LEN: usize = 12;

/// The 16-bit big-endian word formed by two bytes.
pub open spec fn be_word(hi: u8, lo: u8) -> nat {
    hi as nat * 256 + lo as nat
}

/// The big-endian word that starts at offset `i` of `b`.
pub open spec fn word_at(b: Seq<u8>, i: int) -> nat {
    be_word(b[i], b[i + 1])
}

/// Sum of the big-endian 16-bit words of `b`, taken pair by pair from the front.
pub open spec fn be_word_sum(b: Seq<u8>) -> nat
    decreases b.len(),
{
    if b.len() < 2 {
        0
    } else {
        word_at(b, 0) + be_word_sum(b.subrange(2, b.len() as int))
    }
}

/// Folds the carries above bit 15 back into the low 16 bits until none remain.
pub open spec fn fold_carries(x: nat) -> nat
    decreases x,
{
    if x < 0x10000 {
        x
    } else {
        fold_carries(x % 0x10000 + x / 0x10000)
    }
}

/// One's complement of a value of at most 16 bits.
pub open spec fn complement16(x: nat) -> u16 {
    (0xFFFF - x) as u16
}

/// `b` is the wire form of the probe with the given sequence number.
pub open spec fn is_probe_bytes(b: Seq<u8>, sequence_number: u16) -> bool {
    exists|h: ICMPEchoRequestHeader| #[trigger] h.is_probe(sequence_number) && b == h.encoded()
}

/// Folding keeps the value modulo 0xFFFF, ends at or below 0xFFFF, and leaves
/// a positive value positive.
pub proof fn lemma_fold_carries(x: nat)
    ensures
        fold_carries(x) % 0xFFFF == x % 0xFFFF,
        fold_carries(x) <= 0xFFFF,
        x > 0 ==> fold_carries(x) > 0,
    decreases x,
{
    if x >= 0x10000 {
        let q = x / 0x10000;
        let r = x % 0x10000;
        let y = r + q;
        assert(x == 0xFFFF * q + y);
        vstd::arithmetic::div_mod::lemma_mod_multiples_vanish(q as int, y as int, 0xFFFF);
        lemma_fold_carries(y);
    }
}

/// The word sum of a 12-byte buffer is the sum of its six words.
pub proof fn lemma_be_word_sum_of_twelve(b: Seq<u8>)
    requires
        b.len() == 12,
    ensures
        be_word_sum(b) == word_at(b, 0) + word_at(b, 2) + word_at(b, 4) + word_at(b, 6)
            + word_at(b, 8) + word_at(b, 10),
{
    let b2 = b.subrange(2, 12);
    let b4 = b2.subrange(2, 10);
    let b6 = b4.subrange(2, 8);
    let b8 = b6.subrange(2, 6);
    let b10 = b8.subrange(2, 4);
    let b12 = b10.subrange(2, 2);
    assert(be_word_sum(b12) == 0);
    assert(be_word_sum(b10) == word_at(b, 10));
    assert(be_word_sum(b8) == word_at(b, 8) + word_at(b, 10));
    assert(be_word_sum(b6) == word_at(b, 6) + word_at(b, 8) + word_at(b, 10));
    assert(be_word_sum(b4) == word_at(b, 4) + word_at(b, 6) + word_at(b, 8) + word_at(b, 10));
    assert(be_word_sum(b2) == word_at(b, 2) + word_at(b, 4) + word_at(b, 6) + word_at(b, 8)
        + word_at(b, 10));
}

pub struct ICMPEchoRequestHeader {
    pub header_type: u8,
    pub code: u8,
    pub check_sum: u16,
    pub identifier: u16,
    pub sequence_number: u16,
    pub payload: [u8; 4],
}

impl ICMPEchoRequestHeader {
    /// Sum of the six header words with the checksum field taken as zero.
    pub open spec fn word_sum_without_checksum(&self) -> nat {
        be_word(self.header_type, self.code) + be_word(self.payload[0], self.payload[1])
            + be_word(self.payload[2], self.payload[3]) + self.identifier as nat
            + self.sequence_number as nat
    }

    /// The Internet checksum of the header and payload.
    pub open spec fn checksum_spec(&self) -> u16 {
        complement16(fold_carries(self.word_sum_without_checksum()))
    }

    /// The 12 bytes on the wire: type, code, checksum, identifier and
    /// sequence number (each big-endian), then the payload.
    pub open spec fn encoded(&self) -> Seq<u8> {
        seq![
            self.header_type,
            self.code,
            (self.check_sum / 256) as u8,
            (self.check_sum % 256) as u8,
            (self.identifier / 256) as u8,
            (self.identifier % 256) as u8,
            (self.sequence_number / 256) as u8,
            (self.sequence_number % 256) as u8,
            self.payload[0],
            self.payload[1],
            self.payload[2],
            self.payload[3],
        ]
    }

    /// A probe as built for the wire: an Echo Request of this sender with the
    /// fixed payload and a checksum that matches its content.
    pub open spec fn is_probe(&self, sequence_number: u16) -> bool {
        &&& self.header_type == ECHO_REQUEST_TYPE
        &&& self.code == 0
        &&& self.identifier == ECHO_IDENTIFIER
        &&& self.sequence_number == sequence_number
        &&& self.payload@ == seq![0x31u8, 0x32u8, 0x33u8, 0x34u8]
        &&& self.check_sum == self.checksum_spec()
    }

    /// Computes the Internet checksum over the header (checksum field zeroed)
    /// and the payload; the header itself is left as it was.
    pub fn check_sum(&mut self) -> (r: u16)
        ensures
            *final(self) == *old(self),
            r == old(self).checksum_spec(),
    {
        let header_and_code_word: u16 = (self.header_type as u16) * 256 + self.code as u16;
        let check_sum_word: u16 = 0;
        let payload_word_0: u16 = (self.payload[0] as u16) * 256 + self.payload[1] as u16;
        let payload_word_1: u16 = (self.payload[2] as u16) * 256 + self.payload[3] as u16;

        let mut sum: u32 = 0;
        sum += header_and_code_word as u32;
        sum += check_sum_word as u32;
        sum += payload_word_0 as u32;
        sum += payload_word_1 as u32;
        sum += self.identifier as u32;
        sum += self.sequence_number as u32;

        while sum / 0x10000 != 0
            invariant
                sum < 0x80000,
                fold_carries(sum as nat) == fold_carries(self.word_sum_without_checksum()),
            decreases sum,
        {
            sum = sum % 0x10000 + sum / 0x10000;
        }
        0xFFFF - (sum as u16)
    }

    /// Builds the Echo Request for one probe, with its checksum filled in.
    pub fn new(sequence_number: u16) -> (r: Self)
        ensures
            r.is_probe(sequence_number),
    {
        let mut packet = Self {
            header_type: ECHO_REQUEST_TYPE,
            code: 0,
            check_sum: 0,
            identifier: ECHO_IDENTIFIER,
            sequence_number: sequence_number,
            payload: [0x31, 0x32, 0x33, 0x34],
        };
        assert(packet.payload@ =~= seq![0x31u8, 0x32u8, 0x33u8, 0x34u8]);
        packet.check_sum = packet.check_sum();
        packet
    }

    /// Serialises the header and payload in wire order.
    pub fn to_buf(&self) -> (r: Vec<u8>)
        ensures
            r@ == self.encoded(),
            r@.len() == ECHO_REQUEST_LEN,
    {
        let mut buf: Vec<u8> = Vec::with_capacity(ECHO_REQUEST_LEN);
        buf.push(self.header_type);
        buf.push(self.code);
        buf.push((self.check_sum / 256) as u8);
        buf.push((self.check_sum % 256) as u8);
        buf.push((self.identifier / 256) as u8);
        buf.push((self.identifier % 256) as u8);
        buf.push((self.sequence_number / 256) as u8);
        buf.push((self.sequence_number % 256) as u8);
        buf.push(self.payload[0]);
        buf.push(self.payload[1]);
        buf.push(self.payload[2]);
        buf.push(self.payload[3]);
        assert(buf@ =~= self.encoded());
        buf
    }
}

/// An encoded request whose checksum was computed verifies itself: its six
/// big-endian words, summed with the carries folded back, give exactly 0xFFFF.
pub proof fn lemma_checksum_self_verifies(h: ICMPEchoRequestHeader)
    requires
        h.check_sum == h.checksum_spec(),
    ensures
        fold_carries(be_word_sum(h.encoded())) == 0xFFFF,
{
    let e = h.encoded();
    lemma_be_word_sum_of_twelve(e);
    let s = h.word_sum_without_checksum();
    lemma_fold_carries(s);
    let c = h.check_sum as nat;
    assert(c == 0xFFFF - fold_carries(s));
    assert(be_word_sum(e) == s + c);
    let t = s + c;
    assert(t % 0xFFFF == (fold_carries(s) + c) % 0xFFFF) by {
        vstd::arithmetic::div_mod::lemma_add_mod_noop(s as int, c as int, 0xFFFF);
        vstd::arithmetic::div_mod::lemma_add_mod_noop(fold_carries(s) as int, c as int, 0xFFFF);
    }
    lemma_fold_carries(t);
}

} // verus!
