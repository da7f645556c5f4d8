//! Byte-level helpers shared by the encoders: appending byte runs and
//! little-endian integers to a sink, and patching a length field in place.

use vstd::bytes::spec_u64_to_le_bytes;
use vstd::bytes::u64_to_le_bytes;
use vstd::prelude::*;

verus! {

/// `s` with the eight bytes at `off` replaced by the little-endian encoding
/// of `v`.
pub open spec fn patched_u64_le(s: Seq<u8>, off: int, v: u64) -> Seq<u8> {
    s.take(off) + spec_u64_to_le_bytes(v) + s.skip(off + 8)
}

/// Appends every byte of `bytes` to `sink`, in order.
pub fn push_bytes(sink: &mut Vec<u8>, bytes: &[u8])
    ensures
        final(sink)@ == old(sink)@ + bytes@,
{
    let mut i: usize = 0;
    while i < bytes.len()
        invariant
            i <= bytes@.len(),
            sink@ == old(sink)@ + bytes@.take(i as int),
        decreases bytes@.len() - i,
    {
        sink.push(bytes[i]);
        proof {
            assert(old(sink)@ + bytes@.take(i + 1) =~= (old(sink)@ + bytes@.take(i as int)).push(
                bytes@[i as int],
            ));
        }
        i = i + 1;
    }
    proof {
        assert(bytes@.take(bytes@.len() as int) =~= bytes@);
    }
}

/// Appends the eight little-endian bytes of `v` to `sink`.
pub fn push_u64_le(sink: &mut Vec<u8>, v: u64)
    ensures
        final(sink)@ == old(sink)@ + spec_u64_to_le_bytes(v),
{
    let bytes = u64_to_le_bytes(v);
    push_bytes(sink, bytes.as_slice());
}

/// Overwrites the eight bytes of `sink` at `off` with the little-endian
/// encoding of `v`; the rest of the sink is untouched.
pub fn write_u64_le_at(sink: &mut Vec<u8>, off: usize, v: u64)
    requires
        off + 8 <= old(sink)@.len(),
    ensures
        final(sink)@ == patched_u64_le(old(sink)@, off as int, v),
{
    let bytes = u64_to_le_bytes(v);
    let sink_len: usize = sink.len();
    let mut k: usize = 0;
    while k < 8
        invariant
            k <= 8,
            off + 8 <= sink_len,
            off + 8 <= sink@.len(),
            bytes@ == spec_u64_to_le_bytes(v),
            bytes@.len() == 8,
            sink@.len() == old(sink)@.len(),
            forall|j: int|
                0 <= j < sink@.len() ==> sink@[j] == if off <= j < off + k {
                    bytes@[j - off]
                } else {
                    old(sink)@[j]
                },
        decreases 8 - k,
    {
        sink[off + k] = bytes[k];
        k = k + 1;
    }
    proof {
        assert(sink@ =~= patched_u64_le(old(sink)@, off as int, v));
    }
}

} // verus!
