//! Framing helpers of the SP-RoT link.

use vstd::prelude::*;

verus! {

/// The byte at `i`, or zero past the end.
pub open spec fn byte_or_zero(b: Seq<u8>, i: int) -> int {
    if 0 <= i < b.len() {
        b[i] as int
    } else {
        0
    }
}

/// The two bytes starting at `idx`, big-endian, for the transmit FIFO; a
/// byte past the end of `tx_buf` counts as zero.
pub fn get_u16(idx: usize, tx_buf: &[u8]) -> (r: u16)
    requires
        idx < usize::MAX,
    ensures
        r == byte_or_zero(tx_buf@, idx as int) * 0x100 + byte_or_zero(tx_buf@, idx + 1),
{
    let upper: u16 = if idx < tx_buf.len() {
        tx_buf[idx] as u16
    } else {
        0
    };
    let lower: u16 = if idx + 1 < tx_buf.len() {
        tx_buf[idx + 1] as u16
    } else {
        0
    };
    let r = upper << 8u16 | lower;
    assert(r == upper * 0x100 + lower) by (bit_vector)
        requires
            upper < 0x100,
            lower < 0x100,
            r == upper << 8u16 | lower,
    ;
    r
}

} // verus!
