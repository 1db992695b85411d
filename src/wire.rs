//! Byte-level building blocks shared by the decoder and the encoder.
use vstd::prelude::*;
use vstd::string::StringSliceAdditionalSpecFns;

verus! {

/// The two bytes of `v`, least significant first.
pub open spec fn le_bytes(v: u16) -> Seq<u8> {
    seq![(v % 256) as u8, (v / 256) as u8]
}

/// The two bytes of `v`, most significant first.
pub open spec fn be_bytes(v: u16) -> Seq<u8> {
    seq![(v / 256) as u8, (v % 256) as u8]
}

/// The little-endian 16-bit value stored at `s[i..i + 2]`.
pub open spec fn le_u16_at(s: Seq<u8>, i: int) -> int {
    s[i] + 256 * s[i + 1]
}

/// The big-endian 16-bit value stored at `s[i..i + 2]`.
pub open spec fn be_u16_at(s: Seq<u8>, i: int) -> int {
    256 * s[i] + s[i + 1]
}

/// `b` with the bytes from `pos` on replaced by `v`.
pub open spec fn splice(b: Seq<u8>, pos: int, v: Seq<u8>) -> Seq<u8> {
    b.subrange(0, pos) + v + b.subrange(pos + v.len(), b.len() as int)
}

/// Writing `a` and then `v` right behind it is writing `a + v`.
pub proof fn lemma_splice_append(b: Seq<u8>, a: Seq<u8>, v: Seq<u8>)
    requires
        a.len() + v.len() <= b.len(),
    ensures
        splice(splice(b, 0, a), a.len() as int, v) == splice(b, 0, a + v),
{
    assert(splice(splice(b, 0, a), a.len() as int, v) =~= splice(b, 0, a + v));
}

/// Reading back a value written least significant byte first gives the value.
pub proof fn lemma_le_round_trip(v: u16)
    ensures
        le_u16_at(le_bytes(v), 0) == v,
{
}

/// Reading back a value written most significant byte first gives the value.
pub proof fn lemma_be_round_trip(v: u16)
    ensures
        be_u16_at(be_bytes(v), 0) == v,
{
}

/// Stores `v` at `buf[pos]`.
pub fn put_u8(buf: &mut [u8], pos: usize, v: u8)
    requires
        pos < old(buf)@.len(),
    ensures
        final(buf)@ == splice(old(buf)@, pos as int, seq![v]),
{
    buf[pos] = v;
    assert(buf@ =~= splice(old(buf)@, pos as int, seq![v]));
}

/// Stores `v` at `buf[pos..pos + 2]`, least significant byte first.
pub fn put_u16_le(buf: &mut [u8], pos: usize, v: u16)
    requires
        pos + 2 <= old(buf)@.len(),
    ensures
        final(buf)@ == splice(old(buf)@, pos as int, le_bytes(v)),
{
    buf[pos] = (v % 256) as u8;
    buf[pos + 1] = (v / 256) as u8;
    assert(buf@ =~= splice(old(buf)@, pos as int, le_bytes(v)));
}

/// Stores `v` at `buf[pos..pos + 2]`, most significant byte first.
pub fn put_u16_be(buf: &mut [u8], pos: usize, v: u16)
    requires
        pos + 2 <= old(buf)@.len(),
    ensures
        final(buf)@ == splice(old(buf)@, pos as int, be_bytes(v)),
{
    buf[pos] = (v / 256) as u8;
    buf[pos + 1] = (v % 256) as u8;
    assert(buf@ =~= splice(old(buf)@, pos as int, be_bytes(v)));
}

/// Copies `src` into `buf` from `pos` on.
pub fn put_slice(buf: &mut [u8], pos: usize, src: &[u8])
    requires
        pos + src@.len() <= old(buf)@.len(),
    ensures
        final(buf)@ == splice(old(buf)@, pos as int, src@),
{
    let n = src.len();
    let blen = buf.len();
    let mut i: usize = 0;
    while i < n
        invariant
            i <= n,
            n == src@.len(),
            pos + n <= blen,
            buf@.len() == blen,
            blen == old(buf)@.len(),
            forall|j: int| 0 <= j < pos ==> buf@[j] == old(buf)@[j],
            forall|j: int| pos <= j < pos + i ==> buf@[j] == src@[j - pos],
            forall|j: int| pos + i <= j < buf@.len() ==> buf@[j] == old(buf)@[j],
        decreases n - i,
    {
        buf[pos + i] = src[i];
        i = i + 1;
    }
    assert(buf@ =~= splice(old(buf)@, pos as int, src@));
}

/// The `n`-byte text slot holding `b`: at most `n - 1` bytes of it, then
/// zeros up to `n`, so that at least one NUL always ends the slot.
pub open spec fn padded(b: Seq<u8>, n: nat) -> Seq<u8>
    recommends
        n >= 1,
{
    let k = if b.len() < n - 1 {
        b.len() as int
    } else {
        n - 1
    };
    b.subrange(0, k) + Seq::new((n - k) as nat, |i: int| 0u8)
}

/// A padded slot is exactly `n` bytes long, ends with a NUL and starts with
/// as much of the text as fits before that NUL.
pub proof fn lemma_padded(b: Seq<u8>, n: nat)
    requires
        n >= 1,
    ensures
        padded(b, n).len() == n,
        padded(b, n)[n - 1] == 0,
        forall|i: int|
            0 <= i < n ==> #[trigger] padded(b, n)[i] == if i < b.len() && i < n - 1 {
                b[i]
            } else {
                0u8
            },
{
}

/// Writes `input` into the `width`-byte slot at `buf[pos..pos + width]`,
/// truncated to `width - 1` bytes and padded with NULs.
pub fn put_padded_str(buf: &mut [u8], pos: usize, width: usize, input: &str)
    requires
        width >= 1,
        pos + width <= old(buf)@.len(),
    ensures
        final(buf)@ == splice(old(buf)@, pos as int, padded(input.spec_bytes(), width as nat)),
{
    let bytes = input.as_bytes();
    let n = bytes.len();
    let k = if n < width - 1 {
        n
    } else {
        width - 1
    };
    let blen = buf.len();
    let mut i: usize = 0;
    while i < width
        invariant
            i <= width,
            k <= width - 1,
            k <= bytes@.len(),
            k == if bytes@.len() < width - 1 { bytes@.len() as int } else { width - 1 },
            bytes@ == input.spec_bytes(),
            pos + width <= blen,
            buf@.len() == blen,
            blen == old(buf)@.len(),
            forall|j: int| 0 <= j < pos ==> buf@[j] == old(buf)@[j],
            forall|j: int| pos <= j < pos + i ==> buf@[j] == (if j - pos < k { bytes@[j - pos] } else { 0u8 }),
            forall|j: int| pos + i <= j < buf@.len() ==> buf@[j] == old(buf)@[j],
        decreases width - i,
    {
        if i < k {
            buf[pos + i] = bytes[i];
        } else {
            buf[pos + i] = 0;
        }
        i = i + 1;
    }
    assert(buf@ =~= splice(old(buf)@, pos as int, padded(input.spec_bytes(), width as nat)));
}

} // verus!
