//! The one computation the terrain-generation collaborator needs from the
//! core: rounding a noise-field size up to the next power of two.

use vstd::prelude::*;

verus! {

/// `n` is a positive power of two.
pub open spec fn power_of_two(n: u64) -> bool {
    n > 0 && n & ((n - 1) as u64) == 0
}

/// Rounds `number` up to the next power of two by smearing the highest
/// set bit of `number - 1` rightward. The bound on `number` keeps the
/// 16-bit smear sufficient and the result inside every platform's `usize`.
pub fn clp2(number: usize) -> (r: usize)
    requires
        1 <= number <= 0x4000_0000,
    ensures
        number <= r,
        r < 2 * number,
        power_of_two(r as u64),
{
    let x0: u64 = number as u64 - 1;
    let x1: u64 = x0 | (x0 >> 1);
    let x2: u64 = x1 | (x1 >> 2);
    let x3: u64 = x2 | (x2 >> 4);
    let x4: u64 = x3 | (x3 >> 8);
    let x5: u64 = x4 | (x4 >> 16);
    proof {
        assert((((x5 + 1) as u64) & x5) == 0 && x0 <= x5 && x5 <= 0x7FFF_FFFF && (x0 >= 1
            ==> ((x5 + 1) as u64) <= ((x0 * 2) as u64)) && (x0 == 0 ==> x5 == 0)) by (bit_vector)
            requires
                x0 <= 0x3FFF_FFFF,
                x1 == x0 | (x0 >> 1),
                x2 == x1 | (x1 >> 2),
                x3 == x2 | (x2 >> 4),
                x4 == x3 | (x3 >> 8),
                x5 == x4 | (x4 >> 16),
        ;
    }
    (x5 + 1) as usize
}

} // verus!
