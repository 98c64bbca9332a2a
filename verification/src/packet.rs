//! Packet headers and client-to-server packets.

use vstd::prelude::*;
use std::io::Cursor;
use asheron_rs::enums::{FragmentGroup, PacketHeaderFlags};
use asheron_rs::packets::c2s_packet::C2SPacket;
use asheron_rs::types::BlobFragments;
use asheron_rs::writers::ACWritable;
use crate::protocol::BlobFragment;
use crate::wire::{read_u32_at, read_u16_at, u32_le, u16_le, u64_le, u32_from_le, u16_from_le, push_u16, push_u32, push_all};

verus! {

/// Size of a packet header, in bytes.
pub const PACKET_HEADER_SIZE: usize = 20;
/// Offset of the checksum within a packet header.
pub const CHECKSUM_OFFSET: usize = 8;
/// The value the checksum field holds while the checksum is computed.
pub const CHECKSUM_PLACEHOLDER: u32 = 0xbadd70dd;
/// Size of a fragment header, in bytes.
pub const FRAGMENT_HEADER_SIZE: usize = 16;

pub const FLAG_BLOB_FRAGMENTS: u32 = 0x4;
pub const FLAG_ACK_SEQUENCE: u32 = 0x4000;
pub const FLAG_LOGIN_REQUEST: u32 = 0x10000;
pub const FLAG_CONNECT_REQUEST: u32 = 0x40000;
pub const FLAG_CONNECT_RESPONSE: u32 = 0x80000;
pub const FLAG_TIME_SYNC: u32 = 0x1000000;

/// The fragment group of game messages.
pub const FRAGMENT_GROUP_OBJECT: u16 = 0xA;

/// A packet header.
#[derive(Clone, Copy, Debug, PartialEq, Eq, Structural)]
pub struct PacketHeader {
    pub sequence: u32,
    pub flags: u32,
    pub checksum: u32,
    pub id: u16,
    pub time: u16,
    pub size: u16,
    pub iteration: u16,
}

/// The twenty header bytes of `h`: each field little-endian, in order.
pub open spec fn header_bytes(h: PacketHeader) -> Seq<u8> {
    u32_le(h.sequence) + u32_le(h.flags) + u32_le(h.checksum) + u16_le(h.id) + u16_le(h.time)
        + u16_le(h.size) + u16_le(h.iteration)
}

/// The header at the start of `b`.
pub open spec fn header_of(b: Seq<u8>) -> PacketHeader {
    PacketHeader {
        sequence: u32_from_le(b, 0),
        flags: u32_from_le(b, 4),
        checksum: u32_from_le(b, 8),
        id: u16_from_le(b, 12),
        time: u16_from_le(b, 14),
        size: u16_from_le(b, 16),
        iteration: u16_from_le(b, 18),
    }
}

/// Whether the header carries `flag`.
pub open spec fn has_flag(h: PacketHeader, flag: u32) -> bool {
    h.flags & flag != 0
}

/// Read the header at the start of a packet.
pub fn parse_packet_header(buf: &[u8]) -> (r: PacketHeader)
    requires
        buf@.len() >= PACKET_HEADER_SIZE,
    ensures
        header_bytes(r) == buf@.subrange(0, 20),
        r == header_of(buf@),
{
    let r = PacketHeader {
        sequence: read_u32_at(buf, 0),
        flags: read_u32_at(buf, 4),
        checksum: read_u32_at(buf, 8),
        id: read_u16_at(buf, 12),
        time: read_u16_at(buf, 14),
        size: read_u16_at(buf, 16),
        iteration: read_u16_at(buf, 18),
    };
    proof {
        assert(header_bytes(r) =~= buf@.subrange(0, 20));
    }
    r
}

/// A client-to-server packet with the optional parts this client sends.
#[derive(Clone, Debug)]
pub struct C2sPacket {
    pub sequence: u32,
    pub flags: u32,
    pub checksum: u32,
    pub recipient_id: u16,
    pub time_since_last_packet: u16,
    pub size: u16,
    pub iteration: u16,
    pub ack_sequence: Option<u32>,
    pub connect_response: Option<u64>,
    pub time: Option<u64>,
    pub fragments: Option<BlobFragment>,
}

impl C2sPacket {
    /// The packet acknowledging server sequence `seq`: the field and the flag are set together.
    pub fn with_ack_sequence(self, seq: u32) -> (r: C2sPacket)
        ensures
            r == (C2sPacket { ack_sequence: Some(seq), flags: self.flags | FLAG_ACK_SEQUENCE, ..self }),
    {
        C2sPacket { ack_sequence: Some(seq), flags: self.flags | FLAG_ACK_SEQUENCE, ..self }
    }
}

/// The header fields of `p`.
pub open spec fn packet_header(p: C2sPacket) -> PacketHeader {
    PacketHeader {
        sequence: p.sequence,
        flags: p.flags,
        checksum: p.checksum,
        id: p.recipient_id,
        time: p.time_since_last_packet,
        size: p.size,
        iteration: p.iteration,
    }
}

/// `v`'s bytes when the flag `flag` of `flags` is set and `v` is there.
pub open spec fn optional_u32(flags: u32, flag: u32, v: Option<u32>) -> Seq<u8> {
    if flags & flag != 0 && v is Some { u32_le(v->0) } else { Seq::empty() }
}

/// `v`'s bytes when the flag `flag` of `flags` is set and `v` is there.
pub open spec fn optional_u64(flags: u32, flag: u32, v: Option<u64>) -> Seq<u8> {
    if flags & flag != 0 && v is Some { u64_le(v->0) } else { Seq::empty() }
}

/// What `C2SPacket::write` writes for `p` without its fragment: the header,
/// then the acknowledged sequence, the ConnectResponse cookie and the time,
/// each where its flag is set and its field is there.
pub open spec fn c2s_head_bytes(p: C2sPacket) -> Seq<u8> {
    header_bytes(packet_header(p)) + optional_u32(p.flags, FLAG_ACK_SEQUENCE, p.ack_sequence)
        + optional_u64(p.flags, FLAG_CONNECT_RESPONSE, p.connect_response)
        + optional_u64(p.flags, FLAG_TIME_SYNC, p.time)
}

/// What `BlobFragments::write` writes for `f`: its sixteen header bytes, then its data.
pub open spec fn fragment_bytes(f: BlobFragment) -> Seq<u8> {
    u32_le(f.sequence) + u32_le(f.id) + u16_le(f.count) + u16_le(f.size) + u16_le(f.index)
        + u16_le(f.group) + f.data@
}

/// The fragment groups `FragmentGroup` knows: Event, Private and Object.
pub open spec fn known_group(group: u16) -> bool {
    group == 0x5 || group == 0x9 || group == 0xA
}

/// What `C2SPacket::write` writes for `p`, fragment included (which it
/// writes last, where its flag is set); `None` where the fragment's group
/// is none that `FragmentGroup` knows.
pub open spec fn c2s_packet_bytes(p: C2sPacket) -> Option<Seq<u8>> {
    if p.flags & FLAG_BLOB_FRAGMENTS != 0 && p.fragments is Some {
        if known_group(p.fragments->0.group) {
            Some(c2s_head_bytes(p) + fragment_bytes(p.fragments->0))
        } else {
            None
        }
    } else {
        Some(c2s_head_bytes(p))
    }
}

/// Calls `C2SPacket::write` on `p`'s fields with no fragment, into memory
/// (which cannot fail; the error arm only converts the `Result`). The source
/// writes the header, then each optional field whose flag is set and which
/// is there, in the order of `c2s_head_bytes`; `p` has no other field.
#[verifier::external_body]
fn write_c2s_head(p: &C2sPacket) -> (r: Vec<u8>)
    ensures
        r@ == c2s_head_bytes(*p),
{
    let packet = C2SPacket { sequence: p.sequence, flags: PacketHeaderFlags::from_bits_retain(p.flags),
        checksum: p.checksum, recipient_id: p.recipient_id, time_since_last_packet: p.time_since_last_packet,
        size: p.size, iteration: p.iteration, server_switch: None, retransmit_sequences: None,
        reject_sequences: None, ack_sequence: p.ack_sequence, login_request: None, world_login_request: None,
        connect_response: p.connect_response, cicmd_command: None, time: p.time, echo_time: None, flow: None,
        fragments: None };
    let mut cursor = Cursor::new(Vec::new());
    match packet.write(&mut cursor) { Ok(()) => cursor.into_inner(), Err(_) => Vec::new() }
}

/// Calls `FragmentGroup::try_from` on the group, then `BlobFragments::write`
/// into memory: `None` exactly for a group the enum does not know.
#[verifier::external_body]
fn write_fragment(f: &BlobFragment) -> (r: Option<Vec<u8>>)
    ensures
        r is Some <==> known_group(f.group),
        r matches Some(b) ==> b@ == fragment_bytes(*f),
{
    let group = match FragmentGroup::try_from(f.group) { Ok(g) => g, Err(_) => return None };
    let blob = BlobFragments { sequence: f.sequence, id: f.id, count: f.count, size: f.size,
        index: f.index, group, data: f.data.clone() };
    let mut cursor = Cursor::new(Vec::new());
    match blob.write(&mut cursor) { Ok(()) => Some(cursor.into_inner()), Err(_) => None }
}

/// The wire bytes of `p` with its size field filled in and the checksum
/// placeholder in place; `None` where its fragment's group is unknown.
pub fn packet_bytes(p: &C2sPacket) -> (r: Option<Vec<u8>>)
    ensures
        match c2s_packet_bytes(*p) {
            Some(b) => r matches Some(x) && x@ == sized_with_placeholder(b),
            None => r is None,
        },
{
    let mut buf = write_c2s_head(p);
    proof {
        assert(header_bytes(packet_header(*p)).len() == 20);
    }
    if p.flags & FLAG_BLOB_FRAGMENTS != 0 {
        if let Some(f) = &p.fragments {
            match write_fragment(f) {
                Some(b) => push_all(&mut buf, b.as_slice()),
                None => return None,
            }
        }
    }
    Some(set_size_and_placeholder(&buf))
}

/// `buf` with the size field holding the payload length and the checksum
/// field holding the placeholder, as before the checksum is computed.
pub open spec fn sized_with_placeholder(buf: Seq<u8>) -> Seq<u8> {
    buf.subrange(0, 8) + u32_le(CHECKSUM_PLACEHOLDER) + buf.subrange(12, 16)
        + u16_le((buf.len() - 20) as u16) + buf.subrange(18, buf.len() as int)
}

/// Write the payload length (everything after the header) into the size
/// field and the placeholder into the checksum field.
pub fn set_size_and_placeholder(buf: &Vec<u8>) -> (r: Vec<u8>)
    requires
        buf@.len() >= PACKET_HEADER_SIZE,
    ensures
        r@ == sized_with_placeholder(buf@),
{
    let mut out: Vec<u8> = Vec::new();
    let mut i: usize = 0;
    while i < 8
        invariant
            i <= 8,
            buf@.len() >= 20,
            out@ == buf@.subrange(0, i as int),
        decreases 8 - i,
    {
        out.push(buf[i]);
        proof { assert(out@ =~= buf@.subrange(0, i as int + 1)); }
        i = i + 1;
    }
    push_u32(&mut out, CHECKSUM_PLACEHOLDER);
    let mut i: usize = 12;
    let ghost base = out@;
    while i < 16
        invariant
            12 <= i <= 16,
            buf@.len() >= 20,
            out@ == base + buf@.subrange(12, i as int),
        decreases 16 - i,
    {
        out.push(buf[i]);
        proof { assert(out@ =~= base + buf@.subrange(12, i as int + 1)); }
        i = i + 1;
    }
    push_u16(&mut out, (buf.len() - 20) as u16);
    let ghost base2 = out@;
    let mut i: usize = 18;
    while i < buf.len()
        invariant
            18 <= i <= buf@.len(),
            out@ == base2 + buf@.subrange(18, i as int),
        decreases buf.len() - i,
    {
        out.push(buf[i]);
        proof { assert(out@ =~= base2 + buf@.subrange(18, i as int + 1)); }
        i = i + 1;
    }
    proof { assert(out@ =~= sized_with_placeholder(buf@)); }
    out
}

} // verus!
