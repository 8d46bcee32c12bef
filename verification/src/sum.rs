//! The offset sum of two integers.

use vstd::prelude::*;

verus! {

/// The constant that `test` adds to the sum of its arguments.
pub const OFFSET: i32 = 10;

/// The offset sum over unbounded integers: `a + b + 10`.
pub open spec fn offset_sum(a: int, b: int) -> int {
    a + b + OFFSET
}

/// Returns `a + b + 10`.
///
/// The result is a `u8`, so the offset sum has to lie in `0..=255`. Nothing
/// is asked of the partial sums: `a + 10` may leave the range of `i32` as
/// long as the offset sum fits the result.
pub fn test(a: i32, b: i32) -> (r: u8)
    requires
        0 <= offset_sum(a as int, b as int) <= u8::MAX,
    ensures
        r == offset_sum(a as int, b as int),
{
    let wide: i64 = a as i64 + OFFSET as i64 + b as i64;
    wide as u8
}

} // verus!
