//! Formatting a duration in nanoseconds with the largest unit (of
//! nanoseconds, microseconds, milliseconds and seconds) that keeps a whole
//! number of at least one.
use vstd::prelude::*;
use crate::text::{dec, push_str, u128_dec};

verus! {

/// The number of decimal digits of `n` (one for zero).
pub open spec fn digits(n: nat) -> nat
    decreases n,
{
    if n < 10 {
        1
    } else {
        1 + digits(n / 10)
    }
}

/// `1000` to the power `k`.
pub open spec fn pow1000(k: nat) -> nat
    decreases k,
{
    if k == 0 {
        1
    } else {
        1000 * pow1000((k - 1) as nat)
    }
}

/// `10` to the power `k`.
pub open spec fn pow10(k: nat) -> nat
    decreases k,
{
    if k == 0 {
        1
    } else {
        10 * pow10((k - 1) as nat)
    }
}

/// The unit of a duration of `n` nanoseconds: 1 for nanoseconds, 2 for
/// microseconds, 3 for milliseconds and 4 or more for seconds, one step
/// for every three decimal digits.
pub open spec fn time_power(n: nat) -> nat {
    ((digits(n) - 1) as nat / 3 + 1) as nat
}

/// The name of unit `p`.
pub open spec fn time_unit(p: nat) -> Seq<char> {
    if p == 1 {
        "ns"@
    } else if p == 2 {
        "µs"@
    } else if p == 3 {
        "ms"@
    } else {
        "s "@
    }
}

/// The text of a duration of `n` nanoseconds.
pub open spec fn time_text(n: nat) -> Seq<char> {
    dec(n / pow1000((time_power(n) - 1) as nat)) + time_unit(time_power(n))
}

/// A number below `10` to the `k` has at most `k` digits.
proof fn lemma_digits_bound(n: nat, k: nat)
    requires
        k >= 1,
        n < pow10(k),
    ensures
        digits(n) <= k,
    decreases k,
{
    if n >= 10 {
        assert(k >= 2) by {
            if k == 1 {
                assert(pow10(1) == 10) by {
                    assert(pow10(0) == 1);
                }
            }
        }
        assert(n / 10 < pow10((k - 1) as nat)) by (nonlinear_arith)
            requires
                n < pow10(k),
                pow10(k) == 10 * pow10((k - 1) as nat),
        ;
        lemma_digits_bound(n / 10, (k - 1) as nat);
    }
}

/// Every `u128` has at most 39 digits.
proof fn lemma_u128_digits(n: u128)
    ensures
        digits(n as nat) <= 39,
{
    assert(pow10(39) == 1_000_000_000_000_000_000_000_000_000_000_000_000_000nat) by {
        reveal_with_fuel(pow10, 40);
    }
    lemma_digits_bound(n as nat, 39);
}

/// The duration `num_nanos` with its unit: the number of whole units, and
/// `ns`, `µs`, `ms` or `s ` (see `time_text`).
pub fn fmt_time(num_nanos: u128) -> (r: String)
    ensures
        r@ == time_text(num_nanos as nat),
{
    let mut d: u32 = 1;
    let mut m: u128 = num_nanos;
    proof {
        lemma_u128_digits(num_nanos);
    }
    while m >= 10
        invariant
            d >= 1,
            digits(num_nanos as nat) == d - 1 + digits(m as nat),
            digits(num_nanos as nat) <= 39,
        decreases m,
    {
        m = m / 10;
        d = d + 1;
    }
    let power: u32 = (d - 1) / 3 + 1;
    let mut div: u128 = 1;
    let mut k: u32 = 0;
    assert(power - 1 <= 12);
    proof {
        lemma_pow1000_mono(0, 12);
        assert(pow1000(12) == 1_000_000_000_000_000_000_000_000_000_000_000_000nat) by {
            reveal_with_fuel(pow1000, 13);
        }
    }
    while k < power - 1
        invariant
            k <= power - 1 <= 12,
            div as nat == pow1000(k as nat),
            div >= 1,
            pow1000(k as nat) <= pow1000(12),
            pow1000(12) == 1_000_000_000_000_000_000_000_000_000_000_000_000nat,
        decreases power - 1 - k,
    {
        assert(pow1000((k + 1) as nat) <= pow1000(12)) by {
            lemma_pow1000_mono((k + 1) as nat, 12);
        }
        div = div * 1000;
        k = k + 1;
    }
    let value = num_nanos / div;
    let mut r = u128_dec(value);
    if power == 1 {
        push_str(&mut r, "ns");
    } else if power == 2 {
        push_str(&mut r, "µs");
    } else if power == 3 {
        push_str(&mut r, "ms");
    } else {
        push_str(&mut r, "s ");
    }
    r
}

/// `pow1000` grows with its exponent.
proof fn lemma_pow1000_mono(a: nat, b: nat)
    requires
        a <= b,
    ensures
        pow1000(a) <= pow1000(b),
    decreases b,
{
    if a < b {
        lemma_pow1000_mono(a, (b - 1) as nat);
    }
}

} // verus!
