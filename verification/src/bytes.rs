//! Fixed-width integer encodings, computed by `byteorder`.

use byteorder::ByteOrder;
use vstd::prelude::*;

verus! {

/// The `width` least significant bytes of `n`, least significant first.
pub open spec fn le_bytes(n: nat, width: nat) -> Seq<u8>
    decreases width,
{
    if width == 0 {
        Seq::empty()
    } else {
        seq![(n % 256) as u8] + le_bytes(n / 256, (width - 1) as nat)
    }
}

/// The `width` least significant bytes of `n`, most significant first.
pub open spec fn be_bytes(n: nat, width: nat) -> Seq<u8>
    decreases width,
{
    if width == 0 {
        Seq::empty()
    } else {
        be_bytes(n / 256, (width - 1) as nat).push((n % 256) as u8)
    }
}

/// `byteorder::LittleEndian::write_u16` on a two-byte buffer: the buffer
/// then holds `n` in little-endian order.
#[verifier::external_body]
pub(crate) fn u16_le(n: u16) -> (out: [u8; 2])
    ensures
        out@ == le_bytes(n as nat, 2),
{
    let mut buf = [0u8; 2];
    byteorder::LittleEndian::write_u16(&mut buf, n);
    buf
}

/// `byteorder::LittleEndian::write_u32` on a four-byte buffer: the buffer
/// then holds `n` in little-endian order.
#[verifier::external_body]
pub(crate) fn u32_le(n: u32) -> (out: [u8; 4])
    ensures
        out@ == le_bytes(n as nat, 4),
{
    let mut buf = [0u8; 4];
    byteorder::LittleEndian::write_u32(&mut buf, n);
    buf
}

/// `byteorder::LittleEndian::write_u64` on an eight-byte buffer: the buffer
/// then holds `n` in little-endian order.
#[verifier::external_body]
pub(crate) fn u64_le(n: u64) -> (out: [u8; 8])
    ensures
        out@ == le_bytes(n as nat, 8),
{
    let mut buf = [0u8; 8];
    byteorder::LittleEndian::write_u64(&mut buf, n);
    buf
}

/// `byteorder::BigEndian::write_u16` on a two-byte buffer: the buffer then
/// holds `n` in big-endian (network) order.
#[verifier::external_body]
pub(crate) fn u16_be(n: u16) -> (out: [u8; 2])
    ensures
        out@ == be_bytes(n as nat, 2),
{
    let mut buf = [0u8; 2];
    byteorder::BigEndian::write_u16(&mut buf, n);
    buf
}

/// Appends `bytes` to the end of `buf`.
pub fn append(buf: &mut Vec<u8>, bytes: &[u8])
    ensures
        final(buf)@ == old(buf)@ + bytes@,
{
    let n = bytes.len();
    let mut i: usize = 0;
    while i < n
        invariant
            n == bytes@.len(),
            i <= n,
            buf@ == old(buf)@ + bytes@.subrange(0, i as int),
        decreases n - i,
    {
        buf.push(bytes[i]);
        i = i + 1;
        assert(buf@ =~= old(buf)@ + bytes@.subrange(0, i as int));
    }
    assert(bytes@.subrange(0, n as int) =~= bytes@);
}

/// `256` to the power `width`: one more than the largest value that `width`
/// bytes hold.
pub open spec fn byte_range(width: nat) -> nat
    decreases width,
{
    if width == 0 {
        1
    } else {
        256 * byte_range((width - 1) as nat)
    }
}

/// The value of a little-endian byte string.
pub open spec fn le_value(s: Seq<u8>) -> nat
    decreases s.len(),
{
    if s.len() == 0 {
        0
    } else {
        s[0] as nat + 256 * le_value(s.drop_first())
    }
}

/// Reading back `width` little-endian bytes of a value that fits in them
/// gives the value.
pub proof fn lemma_le_bytes_value(n: nat, width: nat)
    requires
        n < byte_range(width),
    ensures
        le_value(le_bytes(n, width)) == n,
        le_bytes(n, width).len() == width,
    decreases width,
{
    if width > 0 {
        let w1 = (width - 1) as nat;
        let p = byte_range(w1);
        assert(n / 256 < p) by (nonlinear_arith)
            requires
                n < 256 * p,
        ;
        lemma_le_bytes_value(n / 256, w1);
        let s = le_bytes(n, width);
        assert(s.drop_first() =~= le_bytes(n / 256, w1));
        assert(n == n % 256 + 256 * (n / 256)) by (nonlinear_arith);
    }
}

} // verus!
