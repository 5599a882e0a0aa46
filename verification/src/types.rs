//! Low-level wire encoding primitives shared by the request variants.

use vstd::prelude::*;

verus! {

/// A failure while encoding a request body.
#[derive(Clone, Copy, Debug, PartialEq, Eq, Structural)]
pub enum SerializeError {
    /// A field's byte length cannot be represented in the fixed-width
    /// length prefix the protocol assigns to it.
    OversizedField,
    /// A failure reported by the delegated query-parameter serializer,
    /// propagated to the caller unchanged.
    Parameters,
}

/// The largest byte length a two-byte length prefix can describe.
pub const SHORT_BYTES_MAX_LEN: usize = 65535;

/// The two-byte unsigned big-endian encoding of a length `n <= 65535`.
pub open spec fn spec_u16_be(n: int) -> Seq<u8> {
    seq![(n / 256) as u8, (n % 256) as u8]
}

/// The wire form of a length-prefixed byte block: a two-byte unsigned
/// big-endian length followed by the raw bytes themselves.
pub open spec fn spec_short_bytes(b: Seq<u8>) -> Seq<u8> {
    spec_u16_be(b.len() as int) + b
}

/// Appends every byte of `src` to `buf`, in order.
pub fn append_slice(src: &[u8], buf: &mut Vec<u8>)
    ensures
        final(buf)@ == old(buf)@ + src@,
{
    let mut i: usize = 0;
    while i < src.len()
        invariant
            i <= src@.len(),
            buf@ == old(buf)@ + src@.subrange(0, i as int),
        decreases src@.len() - i,
    {
        buf.push(src[i]);
        proof {
            assert(buf@ =~= old(buf)@ + src@.subrange(0, i + 1));
        }
        i = i + 1;
    }
    proof {
        assert(src@.subrange(0, src@.len() as int) =~= src@);
    }
}

/// Appends the length-prefixed byte block for `bytes` to `buf`: the
/// two-byte big-endian length, then the bytes verbatim. Bytes longer
/// than the prefix can describe are rejected, with `buf` untouched.
pub fn write_short_bytes(bytes: &[u8], buf: &mut Vec<u8>) -> (r: Result<(), SerializeError>)
    ensures
        bytes@.len() <= SHORT_BYTES_MAX_LEN ==> r == Ok::<(), SerializeError>(())
            && final(buf)@ == old(buf)@ + spec_short_bytes(bytes@),
        bytes@.len() > SHORT_BYTES_MAX_LEN ==> r == Err::<(), SerializeError>(
            SerializeError::OversizedField,
        ) && final(buf)@ == old(buf)@,
{
    let len = bytes.len();
    if len > SHORT_BYTES_MAX_LEN {
        return Err(SerializeError::OversizedField);
    }
    let hi: u8 = (len / 256) as u8;
    let lo: u8 = (len % 256) as u8;
    buf.push(hi);
    buf.push(lo);
    append_slice(bytes, buf);
    proof {
        assert(buf@ =~= old(buf)@ + spec_short_bytes(bytes@));
    }
    Ok(())
}

} // verus!
