//! The arithmetic of the fetch operations, over mathematical integers.

use vstd::prelude::*;

verus! {

/// `i` brought back into `lo..=hi` by one step of the range's width.
///
/// For a sum or a difference of two values of a fixed-width integer type,
/// with `lo` and `hi` the type's bounds, this is the two's-complement
/// wraparound of that type.
pub open spec fn wrapped(i: int, lo: int, hi: int) -> int {
    let width = hi - lo + 1;
    if i > hi {
        i - width
    } else if i < lo {
        i + width
    } else {
        i
    }
}

/// The remainder of `a` divided by `m` with the quotient rounded toward
/// zero, as `%` gives it on the machine's signed integers: its sign is that
/// of `a`, and its magnitude is below that of `m`. Meaningful for `m != 0`.
pub open spec fn rem_toward_zero(a: int, m: int) -> int {
    let size = if m < 0 { -m } else { m };
    if a >= 0 {
        a % size
    } else {
        -((-a) % size)
    }
}

/// What a counter that starts at `start` shows after `n` additions of one,
/// each wrapped into `lo..=hi`.
pub open spec fn after_increments(start: int, n: nat, lo: int, hi: int) -> int
    decreases n,
{
    if n == 0 {
        start
    } else {
        wrapped(after_increments(start, (n - 1) as nat, lo, hi) + 1, lo, hi)
    }
}

/// Wrapping a value that is already in range changes nothing, and a value
/// within one width of the range comes back into it, moved by a multiple
/// of the width.
pub proof fn wrapped_is_in_range(i: int, lo: int, hi: int)
    requires
        lo <= hi,
        lo - (hi - lo + 1) <= i <= hi + (hi - lo + 1),
    ensures
        lo <= wrapped(i, lo, hi) <= hi,
        lo <= i <= hi ==> wrapped(i, lo, hi) == i,
        wrapped(i, lo, hi) == i || wrapped(i, lo, hi) == i - (hi - lo + 1) || wrapped(i, lo, hi)
            == i + (hi - lo + 1),
{
}

/// The remainder toward zero is smaller in magnitude than the modulus, is
/// zero or has the sign of the dividend, and agrees with the ordinary
/// remainder where nothing is negative.
pub proof fn rem_toward_zero_bounds(a: int, m: int)
    requires
        m != 0,
    ensures
        -(if m < 0 { -m } else { m }) < rem_toward_zero(a, m) < (if m < 0 { -m } else { m }),
        a >= 0 ==> rem_toward_zero(a, m) >= 0,
        a <= 0 ==> rem_toward_zero(a, m) <= 0,
        a >= 0 && m > 0 ==> rem_toward_zero(a, m) == a % m,
{
    if a == 0 {
        let size = if m < 0 { -m } else { m };
        vstd::arithmetic::div_mod::lemma_small_mod(0, size as nat);
    }
}

/// Additions of one that are made one after another are all counted: as
/// long as the total fits the range, `n` of them leave `start + n`.
pub proof fn increments_are_all_counted(start: int, n: nat, lo: int, hi: int)
    requires
        lo <= start,
        start + n <= hi,
    ensures
        after_increments(start, n, lo, hi) == start + n,
    decreases n,
{
    if n > 0 {
        increments_are_all_counted(start, (n - 1) as nat, lo, hi);
    }
}

} // verus!
