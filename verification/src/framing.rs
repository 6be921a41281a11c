//! COBS framing of packets for the serial line, through
//! `electricui_embedded::wire::framing::Framing` (a wrapper around `corncobs`).
use electricui_embedded::wire::framing::Framing;
use vstd::prelude::*;

verus! {

/// The COBS encoding of a byte string, terminator included, as `corncobs`
/// produces it.
pub uninterp spec fn cobs_encode(raw: Seq<u8>) -> Seq<u8>;

/// Largest COBS encoding of `n` raw bytes: one byte of overhead per 254 input
/// bytes (at least one), and the terminator.
pub open spec fn max_encoded_len_of(n: int) -> int {
    n + (if n == 0 {
        1
    } else {
        (n + 253) / 254
    }) + 1
}

/// `Framing::max_encoded_len` (that is, `corncobs::max_encoded_len`).
#[verifier::external_body]
pub(crate) fn max_encoded_len(raw_len: usize) -> (r: usize)
    requires
        max_encoded_len_of(raw_len as int) <= usize::MAX,
    ensures
        r == max_encoded_len_of(raw_len as int),
{
    Framing::max_encoded_len(raw_len)
}

/// `Framing::encode_buf` (that is, `corncobs::encode_buf`): writes the COBS
/// encoding of `bytes` at the start of `output` and returns its length. The
/// encoding holds no zero but its last byte, it is at most
/// `max_encoded_len` long, and the rest of `output` is left as it was.
#[verifier::external_body]
pub(crate) fn encode_buf(bytes: &[u8], output: &mut Vec<u8>) -> (r: usize)
    requires
        old(output)@.len() >= max_encoded_len_of(bytes@.len() as int),
    ensures
        r == cobs_encode(bytes@).len(),
        1 <= r <= max_encoded_len_of(bytes@.len() as int),
        final(output)@.len() == old(output)@.len(),
        final(output)@.take(r as int) == cobs_encode(bytes@),
        final(output)@.skip(r as int) == old(output)@.skip(r as int),
        final(output)@[r - 1] == 0,
        forall|i: int| 0 <= i < r - 1 ==> final(output)@[i] != 0,
{
    Framing::encode_buf(bytes, output.as_mut_slice())
}

} // verus!
