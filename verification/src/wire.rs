//! Little-endian field encodings and the AC string encoding.

use vstd::prelude::*;

verus! {

/// The two little-endian bytes of `v`.
pub open spec fn u16_le(v: u16) -> Seq<u8> {
    seq![(v & 0xff) as u8, ((v >> 8u16) & 0xff) as u8]
}

/// The four little-endian bytes of `v`.
pub open spec fn u32_le(v: u32) -> Seq<u8> {
    seq![(v & 0xff) as u8, ((v >> 8u32) & 0xff) as u8, ((v >> 16u32) & 0xff) as u8, ((v >> 24u32) & 0xff) as u8]
}

/// The eight little-endian bytes of `v`.
pub open spec fn u64_le(v: u64) -> Seq<u8> {
    u32_le((v & 0xffff_ffff) as u32) + u32_le((v >> 32u64) as u32)
}

/// Append the little-endian bytes of `v`.
pub fn push_u16(out: &mut Vec<u8>, v: u16)
    ensures
        final(out)@ == old(out)@ + u16_le(v),
{
    out.push((v & 0xff) as u8);
    out.push(((v >> 8u16) & 0xff) as u8);
    proof { assert(final(out)@ =~= old(out)@ + u16_le(v)); }
}

/// Append the little-endian bytes of `v`.
pub fn push_u32(out: &mut Vec<u8>, v: u32)
    ensures
        final(out)@ == old(out)@ + u32_le(v),
{
    out.push((v & 0xff) as u8);
    out.push(((v >> 8u32) & 0xff) as u8);
    out.push(((v >> 16u32) & 0xff) as u8);
    out.push(((v >> 24u32) & 0xff) as u8);
    proof { assert(final(out)@ =~= old(out)@ + u32_le(v)); }
}

/// Append the little-endian bytes of `v`.
pub fn push_u64(out: &mut Vec<u8>, v: u64)
    ensures
        final(out)@ == old(out)@ + u64_le(v),
{
    push_u32(out, (v & 0xffff_ffff) as u32);
    push_u32(out, (v >> 32u64) as u32);
    proof { assert(final(out)@ =~= old(out)@ + u64_le(v)); }
}

/// Append the little-endian bytes of `v` to a buffer that holds `start + acc`.
pub(crate) fn push_u32_onto(out: &mut Vec<u8>, v: u32, Ghost(start): Ghost<Seq<u8>>, Ghost(acc): Ghost<Seq<u8>>)
    requires
        old(out)@ == start + acc,
    ensures
        final(out)@ == start + (acc + u32_le(v)),
{
    push_u32(out, v);
    proof { assert((start + acc) + u32_le(v) =~= start + (acc + u32_le(v))); }
}

/// Append the little-endian bytes of `v` to a buffer that holds `start + acc`.
pub(crate) fn push_u64_onto(out: &mut Vec<u8>, v: u64, Ghost(start): Ghost<Seq<u8>>, Ghost(acc): Ghost<Seq<u8>>)
    requires
        old(out)@ == start + acc,
    ensures
        final(out)@ == start + (acc + u64_le(v)),
{
    push_u64(out, v);
    proof { assert((start + acc) + u64_le(v) =~= start + (acc + u64_le(v))); }
}

/// Append the AC string encoding of `s` to a buffer that holds `start + acc`.
pub(crate) fn push_string_onto(out: &mut Vec<u8>, s: &str, Ghost(start): Ghost<Seq<u8>>, Ghost(acc): Ghost<Seq<u8>>)
    requires
        old(out)@ == start + acc,
    ensures
        final(out)@ == start + (acc + ac_string_bytes(s@)),
{
    push_string(out, s);
    proof { assert((start + acc) + ac_string_bytes(s@) =~= start + (acc + ac_string_bytes(s@))); }
}

/// Append all of `bytes`.
pub fn push_all(out: &mut Vec<u8>, bytes: &[u8])
    ensures
        final(out)@ == old(out)@ + bytes@,
{
    let mut i: usize = 0;
    while i < bytes.len()
        invariant
            i <= bytes.len(),
            out@ == old(out)@ + bytes@.take(i as int),
        decreases bytes.len() - i,
    {
        out.push(bytes[i]);
        proof { assert(bytes@.take(i as int + 1) == bytes@.take(i as int).push(bytes@[i as int])); }
        i = i + 1;
        proof { assert(out@ =~= old(out)@ + bytes@.take(i as int)); }
    }
    proof { assert(bytes@.take(bytes.len() as int) == bytes@); }
}

/// The bytes `asheron_rs::writers::write_string` writes for `s`: a length
/// prefix, the Windows-1252 encoding, and zero padding to a multiple of four.
pub uninterp spec fn ac_string_bytes(s: Seq<char>) -> Seq<u8>;

/// Calls `asheron_rs::writers::write_string` on an in-memory buffer and
/// returns the bytes written. Writing to memory cannot fail; the error arm
/// only converts the crate's `Result`. The source pads to a four-byte boundary.
#[verifier::external_body]
fn ac_string(s: &str) -> (r: Vec<u8>)
    ensures
        r@ == ac_string_bytes(s@),
        r@.len() % 4 == 0,
{
    let mut cursor = std::io::Cursor::new(Vec::new());
    match asheron_rs::writers::write_string(&mut cursor, s) {
        Ok(()) => cursor.into_inner(),
        Err(_) => Vec::new(),
    }
}

/// The bytes `asheron_rs::writers::write_string32l` writes for `s` with
/// padding: a four-byte length, a one- or two-byte packed length, the
/// Windows-1252 encoding, and zero padding to a multiple of four.
pub uninterp spec fn ac_string32l_bytes(s: Seq<char>) -> Seq<u8>;

/// Calls `asheron_rs::writers::write_string32l` (with padding) on an
/// in-memory buffer and returns the bytes written. Writing to memory cannot
/// fail; the error arm only converts the crate's `Result`. The source writes
/// four bytes for an empty string and pads anything longer to four bytes.
#[verifier::external_body]
fn ac_string32l(s: &str) -> (r: Vec<u8>)
    ensures
        r@ == ac_string32l_bytes(s@),
        r@.len() % 4 == 0,
{
    let mut cursor = std::io::Cursor::new(Vec::new());
    match asheron_rs::writers::write_string32l(&mut cursor, s, true) {
        Ok(()) => cursor.into_inner(),
        Err(_) => Vec::new(),
    }
}

/// Append the padded String32L encoding of `s`.
pub fn push_string32l(out: &mut Vec<u8>, s: &str)
    ensures
        final(out)@ == old(out)@ + ac_string32l_bytes(s@),
{
    let bytes = ac_string32l(s);
    push_all(out, bytes.as_slice());
}

/// Append the AC string encoding of `s`.
pub fn push_string(out: &mut Vec<u8>, s: &str)
    ensures
        final(out)@ == old(out)@ + ac_string_bytes(s@),
{
    let bytes = ac_string(s);
    push_all(out, bytes.as_slice());
}

/// The little-endian `u16` at `at`.
pub open spec fn u16_from_le(bytes: Seq<u8>, at: int) -> u16 {
    (bytes[at] as u16) | ((bytes[at + 1] as u16) << 8u16)
}

/// The little-endian `u32` at `at`.
pub open spec fn u32_from_le(bytes: Seq<u8>, at: int) -> u32 {
    (bytes[at] as u32) | ((bytes[at + 1] as u32) << 8u32) | ((bytes[at + 2] as u32) << 16u32)
        | ((bytes[at + 3] as u32) << 24u32)
}

/// Read a little-endian `u32` at `at`.
pub fn read_u32_at(bytes: &[u8], at: usize) -> (r: u32)
    requires
        at + 4 <= bytes@.len(),
    ensures
        u32_le(r) == bytes@.subrange(at as int, at + 4),
        r == u32_from_le(bytes@, at as int),
{
    let b0 = bytes[at] as u32;
    let b1 = bytes[at + 1] as u32;
    let b2 = bytes[at + 2] as u32;
    let b3 = bytes[at + 3] as u32;
    let r: u32 = b0 | (b1 << 8u32) | (b2 << 16u32) | (b3 << 24u32);
    proof {
        let x0 = bytes@[at as int];
        let x1 = bytes@[at + 1];
        let x2 = bytes@[at + 2];
        let x3 = bytes@[at + 3];
        assert((r & 0xff) as u8 == x0 && ((r >> 8u32) & 0xff) as u8 == x1
            && ((r >> 16u32) & 0xff) as u8 == x2 && ((r >> 24u32) & 0xff) as u8 == x3) by (bit_vector)
            requires
                b0 == x0 as u32, b1 == x1 as u32, b2 == x2 as u32, b3 == x3 as u32,
                r == b0 | (b1 << 8u32) | (b2 << 16u32) | (b3 << 24u32);
        assert(u32_le(r) =~= bytes@.subrange(at as int, at + 4));
    }
    r
}

/// Read a little-endian `u16` at `at`.
pub fn read_u16_at(bytes: &[u8], at: usize) -> (r: u16)
    requires
        at + 2 <= bytes@.len(),
    ensures
        u16_le(r) == bytes@.subrange(at as int, at + 2),
        r == u16_from_le(bytes@, at as int),
{
    let b0 = bytes[at] as u16;
    let b1 = bytes[at + 1] as u16;
    let r: u16 = b0 | (b1 << 8u16);
    proof {
        let x0 = bytes@[at as int];
        let x1 = bytes@[at + 1];
        assert((r & 0xff) as u8 == x0 && ((r >> 8u16) & 0xff) as u8 == x1) by (bit_vector)
            requires
                b0 == x0 as u16, b1 == x1 as u16,
                r == b0 | (b1 << 8u16);
        assert(u16_le(r) =~= bytes@.subrange(at as int, at + 2));
    }
    r
}

} // verus!
