//! The messages that are posted to a virtual processor, and their bytes.

use vstd::prelude::*;
use zerocopy::little_endian::U16;
use zerocopy::little_endian::U32;
use zerocopy::little_endian::U64;
use zerocopy::IntoBytes;

verus! {

/// The size of a message, and of a slot in the message page.
pub const HV_MESSAGE_SIZE: usize = 256;

pub const HV_MESSAGE_HEADER_SIZE: usize = 16;

pub const HV_MESSAGE_PAYLOAD_SIZE: usize = 240;

/// The message type of an empty slot.
pub const HV_MESSAGE_TYPE_NONE: u32 = 0;

/// The message type of a timer expiration.
pub const HV_MESSAGE_TYPE_TIMER_EXPIRED: u32 = 0x8000_0010;

/// The bytes of `v`, least significant first.
pub open spec fn le16(v: u16) -> Seq<u8> {
    seq![(v & 0xff) as u8, ((v >> 8) & 0xff) as u8]
}

/// The bytes of `v`, least significant first.
pub open spec fn le32(v: u32) -> Seq<u8> {
    seq![
        (v & 0xff) as u8,
        ((v >> 8) & 0xff) as u8,
        ((v >> 16) & 0xff) as u8,
        ((v >> 24) & 0xff) as u8,
    ]
}

/// The bytes of `v`, least significant first.
pub open spec fn le64(v: u64) -> Seq<u8> {
    seq![
        (v & 0xff) as u8,
        ((v >> 8) & 0xff) as u8,
        ((v >> 16) & 0xff) as u8,
        ((v >> 24) & 0xff) as u8,
        ((v >> 32) & 0xff) as u8,
        ((v >> 40) & 0xff) as u8,
        ((v >> 48) & 0xff) as u8,
        ((v >> 56) & 0xff) as u8,
    ]
}

/// The integer whose bytes are the first two of `s`.
pub open spec fn from_le16(s: Seq<u8>) -> u16 {
    (s[0] as u16) | (s[1] as u16) << 8
}

/// The integer whose bytes are the first four of `s`.
pub open spec fn from_le32(s: Seq<u8>) -> u32 {
    (s[0] as u32) | (s[1] as u32) << 8 | (s[2] as u32) << 16 | (s[3] as u32) << 24
}

/// The integer whose bytes are the first eight of `s`.
pub open spec fn from_le64(s: Seq<u8>) -> u64 {
    (s[0] as u64) | (s[1] as u64) << 8 | (s[2] as u64) << 16 | (s[3] as u64) << 24 | (s[4] as u64)
        << 32 | (s[5] as u64) << 40 | (s[6] as u64) << 48 | (s[7] as u64) << 56
}

/// `zerocopy::IntoBytes::as_bytes` on a little-endian 16-bit integer of that
/// crate: the result is the value's two bytes, least significant first.
#[verifier::external_body]
fn u16_as_bytes(v: u16) -> (bytes: Vec<u8>)
    ensures
        bytes@ == le16(v),
{
    U16::new(v).as_bytes().to_vec()
}

/// `zerocopy::IntoBytes::as_bytes` on a little-endian 32-bit integer of that
/// crate: the result is the value's four bytes, least significant first.
#[verifier::external_body]
fn u32_as_bytes(v: u32) -> (bytes: Vec<u8>)
    ensures
        bytes@ == le32(v),
{
    U32::new(v).as_bytes().to_vec()
}

/// `zerocopy::IntoBytes::as_bytes` on a little-endian 64-bit integer of that
/// crate: the result is the value's eight bytes, least significant first.
#[verifier::external_body]
fn u64_as_bytes(v: u64) -> (bytes: Vec<u8>)
    ensures
        bytes@ == le64(v),
{
    U64::new(v).as_bytes().to_vec()
}

/// What stands in front of a message's payload.
#[derive(Clone, Copy, Debug, PartialEq, Eq, Structural)]
pub struct HvMessageHeader {
    pub typ: u32,
    pub len: u8,
    pub flags: u8,
    pub rsvd: u16,
    pub id: u64,
}

impl HvMessageHeader {
    /// The bytes of the header as the guest sees them.
    pub open spec fn bytes(self) -> Seq<u8> {
        le32(self.typ) + seq![self.len, self.flags] + le16(self.rsvd) + le64(self.id)
    }

    /// The header whose bytes begin `s`.
    pub open spec fn parsed(s: Seq<u8>) -> Self {
        HvMessageHeader {
            typ: from_le32(s),
            len: s[4],
            flags: s[5],
            rsvd: from_le16(s.skip(6)),
            id: from_le64(s.skip(8)),
        }
    }

    /// Another message waits for this slot: the guest has to signal the end of
    /// the message that is in it.
    #[verifier::allow_in_spec]
    pub fn message_pending(self) -> bool
        returns
            self.flags & 1 != 0,
    {
        self.flags & 1 != 0
    }

    /// The same header with the pending flag set.
    #[verifier::allow_in_spec]
    pub fn with_message_pending(self) -> Self
        returns
            (HvMessageHeader {
                typ: self.typ,
                len: self.len,
                flags: self.flags | 1,
                rsvd: self.rsvd,
                id: self.id,
            }),
    {
        HvMessageHeader {
            typ: self.typ,
            len: self.len,
            flags: self.flags | 1,
            rsvd: self.rsvd,
            id: self.id,
        }
    }

    pub fn as_bytes(&self) -> (bytes: Vec<u8>)
        ensures
            bytes@ == self.bytes(),
            bytes@.len() == HV_MESSAGE_HEADER_SIZE,
    {
        let mut bytes: Vec<u8> = u32_as_bytes(self.typ);
        bytes.push(self.len);
        bytes.push(self.flags);
        let mut rsvd: Vec<u8> = u16_as_bytes(self.rsvd);
        bytes.append(&mut rsvd);
        let mut id: Vec<u8> = u64_as_bytes(self.id);
        bytes.append(&mut id);
        assert(bytes@ =~= self.bytes());
        bytes
    }

    /// Reads the header that begins `bytes`.
    pub fn read_from(bytes: &[u8]) -> (header: Self)
        requires
            bytes@.len() >= HV_MESSAGE_HEADER_SIZE,
        ensures
            header == Self::parsed(bytes@),
    {
        HvMessageHeader {
            typ: (bytes[0] as u32) | (bytes[1] as u32) << 8 | (bytes[2] as u32) << 16 | (
            bytes[3] as u32) << 24,
            len: bytes[4],
            flags: bytes[5],
            rsvd: (bytes[6] as u16) | (bytes[7] as u16) << 8,
            id: (bytes[8] as u64) | (bytes[9] as u64) << 8 | (bytes[10] as u64) << 16 | (
            bytes[11] as u64) << 24 | (bytes[12] as u64) << 32 | (bytes[13] as u64) << 40 | (
            bytes[14] as u64) << 48 | (bytes[15] as u64) << 56,
        }
    }
}

/// A message: a header and a payload buffer.
#[derive(Clone, Copy, Debug)]
pub struct HvMessage {
    pub header: HvMessageHeader,
    pub payload_buffer: [u8; HV_MESSAGE_PAYLOAD_SIZE],
}

impl HvMessage {
    /// The bytes of the message as the guest sees them.
    pub open spec fn bytes(self) -> Seq<u8> {
        self.header.bytes() + self.payload_buffer@
    }

    /// A message with the given payload; the rest of the buffer is zero.
    pub fn new(typ: u32, id: u64, payload: &[u8]) -> (message: Self)
        requires
            payload@.len() <= HV_MESSAGE_PAYLOAD_SIZE,
        ensures
            message.header == (HvMessageHeader {
                typ,
                len: payload@.len() as u8,
                flags: 0,
                rsvd: 0,
                id,
            }),
            message.payload_buffer@ == payload@ + Seq::new(
                (HV_MESSAGE_PAYLOAD_SIZE - payload@.len()) as nat,
                |i: int| 0u8,
            ),
    {
        let mut payload_buffer: [u8; HV_MESSAGE_PAYLOAD_SIZE] = [0u8; HV_MESSAGE_PAYLOAD_SIZE];
        let mut i: usize = 0;
        while i < payload.len()
            invariant
                i <= payload@.len() <= HV_MESSAGE_PAYLOAD_SIZE,
                forall|j: int| 0 <= j < i ==> payload_buffer@[j] == payload@[j],
                forall|j: int| i <= j < HV_MESSAGE_PAYLOAD_SIZE ==> payload_buffer@[j] == 0,
            decreases payload@.len() - i,
        {
            payload_buffer[i] = payload[i];
            i += 1;
        }
        assert(payload_buffer@ =~= payload@ + Seq::new(
            (HV_MESSAGE_PAYLOAD_SIZE - payload@.len()) as nat,
            |i: int| 0u8,
        ));
        HvMessage {
            header: HvMessageHeader { typ, len: payload.len() as u8, flags: 0, rsvd: 0, id },
            payload_buffer,
        }
    }

    pub fn as_bytes(&self) -> (bytes: Vec<u8>)
        ensures
            bytes@ == self.bytes(),
            bytes@.len() == HV_MESSAGE_SIZE,
    {
        let mut bytes: Vec<u8> = self.header.as_bytes();
        let mut i: usize = 0;
        while i < HV_MESSAGE_PAYLOAD_SIZE
            invariant
                i <= HV_MESSAGE_PAYLOAD_SIZE,
                self.header.bytes().len() == HV_MESSAGE_HEADER_SIZE,
                bytes@ =~= self.header.bytes() + self.payload_buffer@.take(i as int),
            decreases HV_MESSAGE_PAYLOAD_SIZE - i,
        {
            bytes.push(self.payload_buffer[i]);
            i += 1;
        }
        assert(self.payload_buffer@.take(i as int) =~= self.payload_buffer@);
        bytes
    }
}

/// The payload of a timer expiration message.
#[derive(Clone, Copy, Debug, PartialEq, Eq, Structural)]
pub struct TimerMessagePayload {
    pub timer_index: u32,
    pub reserved: u32,
    pub expiration_time: u64,
    pub delivery_time: u64,
}

impl TimerMessagePayload {
    /// The bytes of the payload as the guest sees them.
    pub open spec fn bytes(self) -> Seq<u8> {
        le32(self.timer_index) + le32(self.reserved) + le64(self.expiration_time) + le64(
            self.delivery_time,
        )
    }

    pub fn as_bytes(&self) -> (bytes: Vec<u8>)
        ensures
            bytes@ == self.bytes(),
            bytes@.len() == 24,
    {
        let mut bytes: Vec<u8> = u32_as_bytes(self.timer_index);
        let mut reserved: Vec<u8> = u32_as_bytes(self.reserved);
        bytes.append(&mut reserved);
        let mut expiration_time: Vec<u8> = u64_as_bytes(self.expiration_time);
        bytes.append(&mut expiration_time);
        let mut delivery_time: Vec<u8> = u64_as_bytes(self.delivery_time);
        bytes.append(&mut delivery_time);
        assert(bytes@ =~= self.bytes());
        bytes
    }
}

/// An integer read back from its bytes is the same integer.
proof fn lemma_from_le32(v: u32, s: Seq<u8>)
    requires
        s.len() >= 4,
        s.take(4) == le32(v),
    ensures
        from_le32(s) == v,
{
    assert(forall|i: int| 0 <= i < 4 ==> s[i] == s.take(4)[i]);
    let (a, b, c, d) = (s[0], s[1], s[2], s[3]);
    assert((a as u32) | (b as u32) << 8 | (c as u32) << 16 | (d as u32) << 24 == v) by (bit_vector)
        requires
            a == (v & 0xff) as u8,
            b == ((v >> 8) & 0xff) as u8,
            c == ((v >> 16) & 0xff) as u8,
            d == ((v >> 24) & 0xff) as u8,
    ;
}

/// The bytes of a header that was read are the bytes it was read from.
pub proof fn lemma_header_read_back(s: Seq<u8>)
    requires
        s.len() == HV_MESSAGE_HEADER_SIZE,
    ensures
        HvMessageHeader::parsed(s).bytes() == s,
{
    let (a, b, c, d) = (s[0], s[1], s[2], s[3]);
    let typ = from_le32(s);
    assert((typ & 0xff) as u8 == a && ((typ >> 8) & 0xff) as u8 == b && ((typ >> 16) & 0xff) as u8
        == c && ((typ >> 24) & 0xff) as u8 == d) by (bit_vector)
        requires
            typ == (a as u32) | (b as u32) << 8 | (c as u32) << 16 | (d as u32) << 24,
    ;
    let (e, f) = (s[6], s[7]);
    assert(s.skip(6)[0] == e && s.skip(6)[1] == f);
    let rsvd = from_le16(s.skip(6));
    assert((rsvd & 0xff) as u8 == e && ((rsvd >> 8) & 0xff) as u8 == f) by (bit_vector)
        requires
            rsvd == (e as u16) | (f as u16) << 8,
    ;
    assert(forall|i: int| 0 <= i < 8 ==> s.skip(8)[i] == s[8 + i]);
    let (g, h, i, j) = (s[8], s[9], s[10], s[11]);
    let (k, l, m, n) = (s[12], s[13], s[14], s[15]);
    let id = from_le64(s.skip(8));
    assert((id & 0xff) as u8 == g && ((id >> 8) & 0xff) as u8 == h && ((id >> 16) & 0xff) as u8 == i
        && ((id >> 24) & 0xff) as u8 == j && ((id >> 32) & 0xff) as u8 == k && ((id >> 40)
        & 0xff) as u8 == l && ((id >> 48) & 0xff) as u8 == m && ((id >> 56) & 0xff) as u8 == n)
        by (bit_vector)
        requires
            id == (g as u64) | (h as u64) << 8 | (i as u64) << 16 | (j as u64) << 24 | (k as u64)
                << 32 | (l as u64) << 40 | (m as u64) << 48 | (n as u64) << 56,
    ;
    assert(HvMessageHeader::parsed(s).bytes() =~= s);
}

/// The type of a message is read back from the first bytes of the message.
pub proof fn lemma_message_type(message: HvMessage, s: Seq<u8>)
    requires
        s.len() >= HV_MESSAGE_SIZE,
        s.take(HV_MESSAGE_SIZE as int) == message.bytes(),
    ensures
        from_le32(s) == message.header.typ,
{
    assert(s.take(4) =~= message.bytes().take(4));
    assert(message.bytes().take(4) =~= le32(message.header.typ));
    lemma_from_le32(message.header.typ, s);
}

} // verus!
