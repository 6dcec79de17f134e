//! The ICMP echo packet codec: building an echo request, the 16-bit
//! one's-complement checksum, and decoding an echo reply envelope.
use vstd::prelude::*;

use crate::sys::now_unix_millis;

verus! {

/// The size, in bytes, of an IPv4 header.
pub const IPV4_HEADER_SIZE: usize = 20;

/// The size, in bytes, of one ICMP echo-request packet as this tool builds
/// it: type, code, checksum, identifier, and an eight-byte timestamp payload.
pub const ICMP_PACKET_SIZE: usize = 14;

/// The total size, in bytes, of an echo request or reply as the network
/// stack delivers it, IPv4 header included.
pub const FULL_PACKET_SIZE: usize = IPV4_HEADER_SIZE + ICMP_PACKET_SIZE;

/// The byte index (in a received packet, IPv4 header included) of the ICMP
/// message type byte.
pub const ICMP_TYPE_INDEX: usize = 20;

/// The byte index (in a received packet) of the first byte of the sender's
/// IPv4 address.
pub const IPV4_IP_OFFSET: usize = 12;

/// The byte index (in a received packet) of the first byte of the echo
/// "identifier" field.
pub const ICMP_ID_OFFSET: usize = 24;

/// The byte index (in a received packet) of the first byte of the echoed
/// timestamp payload.
pub const ICMP_DATA_OFFSET: usize = 26;

/// The ICMP message type of an echo request.
pub const ICMP_TYPE_ECHO_REQ: u8 = 8;

/// The ICMP message type of an echo reply.
pub const ICMP_TYPE_ECHO_REPLY: u8 = 0;

/// The first identifier byte that marks a probe as this tool's own: 'W'.
pub const ICMP_ID_0: u8 = 87;

/// The second identifier byte that marks a probe as this tool's own: 'P'.
pub const ICMP_ID_1: u8 = 80;

/// The sum of the big-endian 16-bit words of a buffer; an odd trailing byte
/// counts as the high byte of a zero-padded word.
pub open spec fn words_sum(s: Seq<u8>) -> int
    decreases s.len(),
{
    if s.len() == 0 {
        0
    } else if s.len() % 2 == 1 {
        words_sum(s.take(s.len() - 1)) + s[s.len() - 1] * 256
    } else {
        words_sum(s.take(s.len() - 2)) + s[s.len() - 2] * 256 + s[s.len() - 1]
    }
}

/// Folds the carry bits of a word sum back into the low 16 bits until none
/// remain.
pub open spec fn fold_carries(n: int) -> int
    decreases n,
{
    if n < 0x10000 {
        n
    } else {
        fold_carries(n % 0x10000 + n / 0x10000)
    }
}

/// The 16-bit one's-complement checksum of a buffer: sum the big-endian
/// words, fold the carries, complement the result.
pub open spec fn checksum16(s: Seq<u8>) -> u16 {
    (0xFFFF - fold_carries(words_sum(s))) as u16
}

/// Computes the 16-bit one's-complement checksum of a buffer without
/// changing it.
pub fn checksum_value(data: &Vec<u8>) -> (r: u16)
    requires
        data@.len() <= 0x20000,
    ensures
        r == checksum16(data@),
{
    let len = data.len();
    let mut sum: u32 = 0;
    let mut i: usize = 0;
    while i + 2 <= len
        invariant
            i % 2 == 0,
            i <= len,
            len == data@.len() <= 0x20000,
            sum == words_sum(data@.take(i as int)),
            sum <= 0xFFFF * ((i + 1) / 2),
        decreases len - i,
    {
        proof {
            assert(data@.take(i + 2).take(i as int) =~= data@.take(i as int));
            assert(data@.take(i + 2).len() % 2 == 0);
        }
        sum = sum + (data[i] as u32) * 256 + (data[i + 1] as u32);
        i = i + 2;
    }
    if i < len {
        proof {
            assert(data@.take(i + 1).take(i as int) =~= data@.take(i as int));
            assert(data@.take(i + 1).len() % 2 == 1);
        }
        sum = sum + (data[i] as u32) * 256;
        i = i + 1;
    }
    proof {
        assert(data@.take(len as int) =~= data@);
    }
    while sum >= 0x10000
        invariant
            fold_carries(sum as int) == fold_carries(words_sum(data@)),
        decreases sum,
    {
        proof {
            assert((sum & 0xFFFF) == sum as int % 0x10000 && (sum >> 16) == sum as int / 0x10000)
                by (bit_vector);
        }
        sum = (sum & 0xFFFF) + (sum >> 16);
    }
    (0xFFFF - sum) as u16
}

/// A buffer with the computed checksum written into its two checksum bytes,
/// high byte first.
pub open spec fn with_checksum(s: Seq<u8>) -> Seq<u8> {
    s.update(2, (checksum16(s) / 256) as u8).update(3, (checksum16(s) % 256) as u8)
}

/// Computes the checksum of an ICMP packet over its current content and
/// writes it into the checksum field, high byte first.
pub fn icmp_checksum(buffer: &mut Vec<u8>)
    requires
        old(buffer)@.len() == ICMP_PACKET_SIZE,
    ensures
        final(buffer)@ == with_checksum(old(buffer)@),
{
    let c = checksum_value(buffer);
    buffer.set(2, (c / 256) as u8);
    buffer.set(3, (c % 256) as u8);
}

/// Byte `i` (big-endian, counted from the most significant) of a 64-bit
/// value.
pub open spec fn be_byte(n: u64, i: int) -> u8 {
    ((n >> ((56 - 8 * i) as u64)) & 0xFF) as u8
}

/// The eight bytes of a 64-bit value, most significant first.
pub open spec fn u64_be_bytes(n: u64) -> Seq<u8> {
    Seq::new(8, |i: int| be_byte(n, i))
}

/// An echo request carrying timestamp `t`, before its checksum is filled in.
pub open spec fn zeroed_request(t: u64) -> Seq<u8> {
    seq![ICMP_TYPE_ECHO_REQ, 0u8, 0u8, 0u8, ICMP_ID_0, ICMP_ID_1] + u64_be_bytes(t)
}

/// The wire form of an echo request carrying timestamp `t`.
pub open spec fn request_packet(t: u64) -> Seq<u8> {
    with_checksum(zeroed_request(t))
}

/// Writes an echo request carrying the given send timestamp into the
/// provided buffer: type and code, zeroed checksum field, identifier tag,
/// big-endian timestamp payload, and finally the computed checksum.
pub fn write_packet_at(buffer: &mut Vec<u8>, now_millis: u64)
    requires
        old(buffer)@.len() == ICMP_PACKET_SIZE,
    ensures
        final(buffer)@ == request_packet(now_millis),
{
    buffer.set(0, ICMP_TYPE_ECHO_REQ);
    buffer.set(1, 0);
    // The checksum bytes must be zero while the sum is computed.
    buffer.set(2, 0);
    buffer.set(3, 0);
    buffer.set(4, ICMP_ID_0);
    buffer.set(5, ICMP_ID_1);
    buffer.set(6, ((now_millis >> 56) & 0xFF) as u8);
    buffer.set(7, ((now_millis >> 48) & 0xFF) as u8);
    buffer.set(8, ((now_millis >> 40) & 0xFF) as u8);
    buffer.set(9, ((now_millis >> 32) & 0xFF) as u8);
    buffer.set(10, ((now_millis >> 24) & 0xFF) as u8);
    buffer.set(11, ((now_millis >> 16) & 0xFF) as u8);
    buffer.set(12, ((now_millis >> 8) & 0xFF) as u8);
    buffer.set(13, (now_millis & 0xFF) as u8);
    proof {
        assert(now_millis & 0xFF == (now_millis >> 0) & 0xFF) by (bit_vector);
        assert(buffer@ =~= zeroed_request(now_millis));
    }
    icmp_checksum(buffer);
}

/// Writes a fresh echo request into the provided buffer, timestamped with
/// the wall-clock time at the moment of the call.
pub fn write_packet(buffer: &mut Vec<u8>)
    requires
        old(buffer)@.len() == ICMP_PACKET_SIZE,
    ensures
        exists|t: u64| final(buffer)@ == request_packet(t),
{
    let now = now_unix_millis();
    write_packet_at(buffer, now);
}

/// The big-endian integer value of a byte sequence.
pub open spec fn be_val(s: Seq<u8>) -> int
    decreases s.len(),
{
    if s.len() == 0 {
        0
    } else {
        be_val(s.take(s.len() - 1)) * 256 + s[s.len() - 1]
    }
}

/// An echo reply as this tool reads it: the prober's address and the echoed
/// send timestamp.
pub struct Reply {
    /// The source address of the reply, as a 32-bit IPv4 value.
    pub from: u32,
    /// The Unix time in milliseconds at which the probe was sent, echoed
    /// back in the reply's payload.
    pub sent: u64,
}

impl Reply {
    /// Extracts the source address and the echoed timestamp from a received
    /// reply envelope. The envelope must already have been filtered; no
    /// validation happens here.
    pub fn from_bytes(buf: &Vec<u8>) -> (r: Reply)
        requires
            buf@.len() == FULL_PACKET_SIZE,
        ensures
            r.from == be_val(buf@.subrange(IPV4_IP_OFFSET as int, IPV4_IP_OFFSET as int + 4)),
            r.sent == be_val(buf@.subrange(ICMP_DATA_OFFSET as int, ICMP_DATA_OFFSET as int + 8)),
    {
        let from: u32 = (buf[12] as u32) * 0x1000000 + (buf[13] as u32) * 0x10000 + (buf[14]
            as u32) * 0x100 + (buf[15] as u32);
        let sent: u64 = (buf[26] as u64) * 0x100000000000000 + (buf[27] as u64) * 0x1000000000000
            + (buf[28] as u64) * 0x10000000000 + (buf[29] as u64) * 0x100000000 + (buf[30] as u64)
            * 0x1000000 + (buf[31] as u64) * 0x10000 + (buf[32] as u64) * 0x100 + (buf[33] as u64);
        proof {
            lemma_be_val_4(buf@.subrange(12, 16));
            lemma_be_val_8(buf@.subrange(26, 34));
        }
        Reply { from, sent }
    }

    /// The round-trip time of this reply, in milliseconds, given the time of
    /// receipt: the difference of the receive time and the embedded send
    /// time, saturating at zero.
    pub fn roundtrip_time(&self, now_millis: u64) -> (r: u64)
        ensures
            r == if now_millis >= self.sent {
                now_millis - self.sent
            } else {
                0
            },
    {
        if now_millis >= self.sent {
            now_millis - self.sent
        } else {
            0
        }
    }
}

/// The big-endian value of four bytes, written out digit by digit.
proof fn lemma_be_val_4(s: Seq<u8>)
    requires
        s.len() == 4,
    ensures
        be_val(s) == s[0] * 0x1000000 + s[1] * 0x10000 + s[2] * 0x100 + s[3],
{
    reveal_with_fuel(be_val, 5);
    assert(s.take(3).take(2) =~= s.take(2));
    assert(s.take(2).take(1) =~= s.take(1));
    assert(be_val(s.take(1)) == s[0]);
}

/// The big-endian value of eight bytes, written out digit by digit.
proof fn lemma_be_val_8(s: Seq<u8>)
    requires
        s.len() == 8,
    ensures
        be_val(s) == s[0] * 0x100000000000000 + s[1] * 0x1000000000000 + s[2] * 0x10000000000
            + s[3] * 0x100000000 + s[4] * 0x1000000 + s[5] * 0x10000 + s[6] * 0x100 + s[7],
{
    reveal_with_fuel(be_val, 5);
    assert(s.take(7).take(6) =~= s.take(6));
    assert(s.take(6).take(5) =~= s.take(5));
    assert(s.take(5).take(4) =~= s.take(4));
    lemma_be_val_4(s.take(4));
    assert(s.take(4)[0] == s[0] && s.take(4)[1] == s[1] && s.take(4)[2] == s[2] && s.take(4)[3]
        == s[3]);
}

/// Reading the timestamp payload back out of an echoed request recovers the
/// timestamp that was written: the decoder inverts the encoder on the
/// payload field.
pub proof fn lemma_timestamp_roundtrip(t: u64)
    ensures
        be_val(u64_be_bytes(t)) == t,
{
    let s = u64_be_bytes(t);
    lemma_be_val_8(s);
    let b0 = ((t >> 56u64) & 0xFF) as u8;
    let b1 = ((t >> 48u64) & 0xFF) as u8;
    let b2 = ((t >> 40u64) & 0xFF) as u8;
    let b3 = ((t >> 32u64) & 0xFF) as u8;
    let b4 = ((t >> 24u64) & 0xFF) as u8;
    let b5 = ((t >> 16u64) & 0xFF) as u8;
    let b6 = ((t >> 8u64) & 0xFF) as u8;
    let b7 = ((t >> 0u64) & 0xFF) as u8;
    assert(s[0] == b0 && s[1] == b1 && s[2] == b2 && s[3] == b3 && s[4] == b4 && s[5] == b5 && s[6]
        == b6 && s[7] == b7);
    assert(b0 * 0x100000000000000 + b1 * 0x1000000000000 + b2 * 0x10000000000 + b3 * 0x100000000
        + b4 * 0x1000000 + b5 * 0x10000 + b6 * 0x100 + b7 == t) by (bit_vector)
        requires
            b0 == ((t >> 56u64) & 0xFF) as u8,
            b1 == ((t >> 48u64) & 0xFF) as u8,
            b2 == ((t >> 40u64) & 0xFF) as u8,
            b3 == ((t >> 32u64) & 0xFF) as u8,
            b4 == ((t >> 24u64) & 0xFF) as u8,
            b5 == ((t >> 16u64) & 0xFF) as u8,
            b6 == ((t >> 8u64) & 0xFF) as u8,
            b7 == ((t >> 0u64) & 0xFF) as u8,
    ;
}

/// Recomputing the checksum over an encoded request with its checksum field
/// zeroed again reproduces exactly the value stored in the checksum field:
/// a receiver validating with the same algorithm accepts every packet this
/// tool builds.
pub proof fn lemma_checksum_roundtrip(s: Seq<u8>)
    requires
        s.len() == ICMP_PACKET_SIZE,
        s[2] == 0,
        s[3] == 0,
    ensures
        ({
            let stored = (with_checksum(s)[2] as int) * 256 + with_checksum(s)[3];
            checksum16(with_checksum(s).update(2, 0u8).update(3, 0u8)) == stored
        }),
{
    assert(with_checksum(s).update(2, 0u8).update(3, 0u8) =~= s);
    let c = checksum16(s);
    assert(c / 256 < 256);
    assert((c / 256) as u8 as int * 256 + (c % 256) as u8 as int == c);
}

} // verus!
