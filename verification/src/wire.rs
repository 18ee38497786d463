use vstd::prelude::*;

verus! {

/// The little-endian byte representation of a 64-bit integer, the one
/// multi-byte scalar layout this wire format uses.
pub open spec fn u64_le(n: u64) -> Seq<u8> {
    seq![
        (n % 256) as u8,
        ((n >> 8u64) % 256) as u8,
        ((n >> 16u64) % 256) as u8,
        ((n >> 24u64) % 256) as u8,
        ((n >> 32u64) % 256) as u8,
        ((n >> 40u64) % 256) as u8,
        ((n >> 48u64) % 256) as u8,
        ((n >> 56u64) % 256) as u8,
    ]
}

/// Assembling a 64-bit integer from eight bytes inverts `u64_le`.
proof fn lemma_u64_le_parts(n: u64, b0: u8, b1: u8, b2: u8, b3: u8, b4: u8, b5: u8, b6: u8, b7: u8)
    by (bit_vector)
    requires
        n == (b0 as u64) | ((b1 as u64) << 8u64) | ((b2 as u64) << 16u64) | ((b3 as u64)
            << 24u64) | ((b4 as u64) << 32u64) | ((b5 as u64) << 40u64) | ((b6 as u64) << 48u64)
            | ((b7 as u64) << 56u64),
    ensures
        (n % 256) as u8 == b0,
        ((n >> 8u64) % 256) as u8 == b1,
        ((n >> 16u64) % 256) as u8 == b2,
        ((n >> 24u64) % 256) as u8 == b3,
        ((n >> 32u64) % 256) as u8 == b4,
        ((n >> 40u64) % 256) as u8 == b5,
        ((n >> 48u64) % 256) as u8 == b6,
        ((n >> 56u64) % 256) as u8 == b7,
{
}

/// Two 64-bit integers with the same little-endian bytes are equal.
pub proof fn lemma_u64_le_injective(x: u64, y: u64)
    requires
        u64_le(x) == u64_le(y),
    ensures
        x == y,
{
    assert(u64_le(x)[0] == u64_le(y)[0]);
    assert(u64_le(x)[1] == u64_le(y)[1]);
    assert(u64_le(x)[2] == u64_le(y)[2]);
    assert(u64_le(x)[3] == u64_le(y)[3]);
    assert(u64_le(x)[4] == u64_le(y)[4]);
    assert(u64_le(x)[5] == u64_le(y)[5]);
    assert(u64_le(x)[6] == u64_le(y)[6]);
    assert(u64_le(x)[7] == u64_le(y)[7]);
    assert(x == y) by (bit_vector)
        requires
            (x % 256) as u8 == (y % 256) as u8,
            ((x >> 8u64) % 256) as u8 == ((y >> 8u64) % 256) as u8,
            ((x >> 16u64) % 256) as u8 == ((y >> 16u64) % 256) as u8,
            ((x >> 24u64) % 256) as u8 == ((y >> 24u64) % 256) as u8,
            ((x >> 32u64) % 256) as u8 == ((y >> 32u64) % 256) as u8,
            ((x >> 40u64) % 256) as u8 == ((y >> 40u64) % 256) as u8,
            ((x >> 48u64) % 256) as u8 == ((y >> 48u64) % 256) as u8,
            ((x >> 56u64) % 256) as u8 == ((y >> 56u64) % 256) as u8,
    ;
}

/// Appends the little-endian encoding of `n` to `out`.
pub fn push_u64_le(out: &mut Vec<u8>, n: u64)
    ensures
        final(out)@ == old(out)@ + u64_le(n),
{
    out.push((n % 256) as u8);
    out.push(((n >> 8u64) % 256) as u8);
    out.push(((n >> 16u64) % 256) as u8);
    out.push(((n >> 24u64) % 256) as u8);
    out.push(((n >> 32u64) % 256) as u8);
    out.push(((n >> 40u64) % 256) as u8);
    out.push(((n >> 48u64) % 256) as u8);
    out.push(((n >> 56u64) % 256) as u8);
    proof {
        assert(out@ =~= old(out)@ + u64_le(n));
    }
}

/// Reads the 64-bit integer whose little-endian bytes sit at
/// `buf[off .. off + 8]`.
pub fn read_u64_le(buf: &[u8], off: usize) -> (n: u64)
    requires
        off + 8 <= buf@.len(),
    ensures
        u64_le(n) == buf@.subrange(off as int, off as int + 8),
{
    let b0 = buf[off];
    let b1 = buf[off + 1];
    let b2 = buf[off + 2];
    let b3 = buf[off + 3];
    let b4 = buf[off + 4];
    let b5 = buf[off + 5];
    let b6 = buf[off + 6];
    let b7 = buf[off + 7];
    let n: u64 = (b0 as u64) | ((b1 as u64) << 8u64) | ((b2 as u64) << 16u64) | ((b3 as u64)
        << 24u64) | ((b4 as u64) << 32u64) | ((b5 as u64) << 40u64) | ((b6 as u64) << 48u64) | ((
    b7 as u64) << 56u64);
    proof {
        lemma_u64_le_parts(n, b0, b1, b2, b3, b4, b5, b6, b7);
        assert(u64_le(n) =~= buf@.subrange(off as int, off as int + 8));
    }
    n
}

/// A value with a fixed, deterministic binary frame representation. One frame
/// carries one whole value; there is no length prefix and no delimiter, so a
/// frame is only ever decoded as a single read's worth of bytes.
pub trait Wire: Sized {
    /// The frame this value encodes to.
    spec fn wire(self) -> Seq<u8>;

    /// Encodes the value into one frame.
    fn encode(&self) -> (r: Vec<u8>)
        ensures
            r@ == self.wire(),
    ;

    /// Decodes one frame. Returns `None` exactly when no value of this type
    /// encodes to these bytes, so a frame is never silently misread as some
    /// other value's frame.
    fn decode(buf: &[u8]) -> (r: Option<Self>)
        ensures
            match r {
                Some(v) => v.wire() == buf@,
                None => forall|v: Self| v.wire() != buf@,
            },
    ;
}

} // verus!
