use vstd::prelude::*;

verus! {

/// Byte `i` of the header encoding of `val`: bytes 0 to 6 hold the low 56 bits
/// of `val`, least significant first; byte 7 is always zero.
pub open spec fn le56_byte(val: u64, i: int) -> u8 {
    if 0 <= i < 7 {
        (val >> (8 * i) as u64) as u8
    } else {
        0u8
    }
}

/// The 8-byte encoding of `val` that headers and nonces use.
pub open spec fn le56_bytes(val: u64) -> Seq<u8> {
    Seq::new(8, |i: int| le56_byte(val, i))
}

/// Encodes `val` as 8 little-endian bytes. Only the low 56 bits are kept: the
/// last byte is left zero, so mined chains keep their existing digests.
pub fn convert_u64_to_u8_array(val: u64) -> (out: [u8; 8])
    ensures
        out@ == le56_bytes(val),
{
    let mut out: [u8; 8] = [0; 8];
    for i in 0..7
        invariant
            out@.len() == 8,
            forall|j: int| 0 <= j < i ==> out@[j] == le56_byte(val, j),
            forall|j: int| i <= j < 8 ==> out@[j] == 0,
    {
        out[i] = (val >> ((i * 8) as u64)) as u8;
    }
    assert(out@ =~= le56_bytes(val));
    out
}

} // verus!
