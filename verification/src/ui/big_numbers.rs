//! Digit handling for the oversized readiness numerals.

use vstd::prelude::*;

verus! {

/// The digits shown for a readiness value: capped at `100`, otherwise its
/// one or two decimal digits.
pub fn split_digits(value: u8) -> (r: Vec<u8>)
    ensures
        value >= 100 ==> r@ == seq![1u8, 0u8, 0u8],
        10 <= value < 100 ==> r@ == seq![value / 10, value % 10],
        value < 10 ==> r@ == seq![value],
{
    let mut r: Vec<u8> = Vec::new();
    if value >= 100 {
        r.push(1);
        r.push(0);
        r.push(0);
        proof {
            assert(r@ =~= seq![1u8, 0u8, 0u8]);
        }
    } else if value >= 10 {
        r.push(value / 10);
        r.push(value % 10);
        proof {
            assert(r@ =~= seq![value / 10, value % 10]);
        }
    } else {
        r.push(value);
        proof {
            assert(r@ =~= seq![value]);
        }
    }
    r
}

} // verus!
