//! Double-precision numbers as bits, and the durations that they give in seconds.

use vstd::arithmetic::power2::{lemma_pow2_adds, lemma_pow2_pos, lemma_pow2_strictly_increases, pow2};
use vstd::prelude::*;

verus! {

/// The nanoseconds of a second.
pub const NANOS_PER_SEC: u32 = 1_000_000_000;

/// A span of time: whole seconds, and nanoseconds below one second.
#[derive(Clone, Copy, Debug, PartialEq, Eq, Structural)]
pub struct Duration {
    pub secs: u64,
    pub nanos: u32,
}

impl Duration {
    /// The nanoseconds stay below one second.
    pub open spec fn wf(self) -> bool {
        self.nanos < NANOS_PER_SEC
    }

    /// The whole span in nanoseconds.
    pub open spec fn total_nanos(self) -> int {
        self.secs * NANOS_PER_SEC + self.nanos
    }

    /// A span of whole seconds.
    pub fn from_secs(secs: u64) -> (r: Duration)
        ensures
            r.wf(),
            r == (Duration { secs, nanos: 0 }),
            r.total_nanos() == secs * NANOS_PER_SEC,
    {
        Duration { secs, nanos: 0 }
    }

    /// A span of milliseconds.
    pub fn from_millis(millis: u64) -> (r: Duration)
        ensures
            r.wf(),
            r == millis_duration(millis),
            r.total_nanos() == millis * 1_000_000,
    {
        Duration { secs: millis / 1000, nanos: ((millis % 1000) * 1_000_000) as u32 }
    }

    /// The whole milliseconds of the span.
    pub fn as_millis(&self) -> (r: u128)
        ensures
            r == self.secs * 1000 + self.nanos / 1_000_000,
            self.wf() ==> r == self.total_nanos() / 1_000_000,
    {
        assert(self.secs * 1000 + self.nanos / 1_000_000 == (self.secs * 1_000_000_000
            + self.nanos) / 1_000_000);
        self.secs as u128 * 1000 + (self.nanos / 1_000_000) as u128
    }
}

/// The span of a number of milliseconds.
pub open spec fn millis_duration(millis: u64) -> Duration {
    Duration { secs: millis / 1000, nanos: ((millis % 1000) * 1_000_000) as u32 }
}

/// The sign bit is set.
pub open spec fn signed(bits: u64) -> bool {
    bits >= 0x8000_0000_0000_0000
}

/// The biased exponent.
pub open spec fn exponent(bits: u64) -> u64 {
    bits / 0x10_0000_0000_0000 % 0x800
}

/// The fraction bits.
pub open spec fn fraction(bits: u64) -> u64 {
    bits % 0x10_0000_0000_0000
}

/// The bits are those of no number.
pub open spec fn is_nan(bits: u64) -> bool {
    exponent(bits) == 0x7ff && fraction(bits) != 0
}

/// The bits are those of an infinity.
pub open spec fn is_infinite(bits: u64) -> bool {
    exponent(bits) == 0x7ff && fraction(bits) == 0
}

/// The bits are those of a zero, of either sign.
pub open spec fn is_zero(bits: u64) -> bool {
    exponent(bits) == 0 && fraction(bits) == 0
}

/// The bits are those of a number below zero.
pub open spec fn is_negative(bits: u64) -> bool {
    signed(bits) && !is_nan(bits) && !is_zero(bits)
}

/// The bits are those of a finite number that is not below zero.
pub open spec fn is_span(bits: u64) -> bool {
    !is_nan(bits) && !is_infinite(bits) && !is_negative(bits)
}

/// The significand: a finite number is `significand * 2^power`, up to its sign.
pub open spec fn significand(bits: u64) -> nat {
    if exponent(bits) == 0 {
        fraction(bits) as nat
    } else {
        (fraction(bits) + 0x10_0000_0000_0000) as nat
    }
}

/// The power of two that the significand is scaled by.
pub open spec fn power(bits: u64) -> int {
    if exponent(bits) == 0 {
        1 - 1075
    } else {
        exponent(bits) - 1075
    }
}

/// The quotient rounded to the nearest whole number, and to the even one halfway.
pub open spec fn rounded_quotient(n: nat, d: nat) -> nat {
    let quotient = n / d;
    let rest = n % d;
    if 2 * rest < d || (2 * rest == d && quotient % 2 == 0) {
        quotient
    } else {
        quotient + 1
    }
}

/// The nanoseconds in a finite number of seconds, rounded to the nearest.
pub open spec fn nanos_of(bits: u64) -> nat {
    if power(bits) >= 0 {
        significand(bits) * 1_000_000_000 * pow2(power(bits) as nat)
    } else {
        rounded_quotient(significand(bits) * 1_000_000_000, pow2((-power(bits)) as nat))
    }
}

/// The number of seconds is below `2^64`.
pub open spec fn fits_seconds(bits: u64) -> bool {
    power(bits) <= 11
}

/// The span of that many nanoseconds.
pub open spec fn duration_of(nanos: nat) -> Duration {
    Duration {
        secs: (nanos / 1_000_000_000) as u64,
        nanos: (nanos % 1_000_000_000) as u32,
    }
}

/// Whether the bits are those of a finite number that is not below zero.
pub fn test_span(bits: u64) -> (r: bool)
    ensures
        r == is_span(bits),
{
    let e: u64 = bits / 0x10_0000_0000_0000 % 0x800;
    let f: u64 = bits % 0x10_0000_0000_0000;
    e != 0x7ff && (bits < 0x8000_0000_0000_0000 || (e == 0 && f == 0))
}

/// Whether the bits are those of a zero.
pub fn test_zero(bits: u64) -> (r: bool)
    ensures
        r == is_zero(bits),
{
    bits / 0x10_0000_0000_0000 % 0x800 == 0 && bits % 0x10_0000_0000_0000 == 0
}

/// Whether the number of seconds is below `2^64`.
pub fn test_fits_seconds(bits: u64) -> (r: bool)
    ensures
        r == fits_seconds(bits),
{
    bits / 0x10_0000_0000_0000 % 0x800 <= 1086
}

/// The powers of two that bound the arithmetic below.
proof fn lemma_powers()
    ensures
        pow2(11) == 0x800,
        pow2(53) == 0x20_0000_0000_0000,
        pow2(64) == 0x1_0000_0000_0000_0000,
        pow2(100) == 0x10_0000_0000_0000_0000_0000_0000,
{
    vstd::arithmetic::power2::lemma2_to64();
    vstd::arithmetic::power2::lemma2_to64_rest();
    lemma_pow2_adds(64, 36);
}

/// A number of seconds below `2^64` is one exactly where its power of two is at most 11.
pub proof fn lemma_fits_seconds(bits: u64)
    requires
        is_span(bits),
    ensures
        power(bits) >= 0 ==> (fits_seconds(bits) <==> significand(bits) * pow2(power(bits) as nat)
            < pow2(64)),
        power(bits) < 0 ==> fits_seconds(bits) && significand(bits) < pow2(64),
{
    lemma_powers();
    if power(bits) >= 0 {
        let p = power(bits) as nat;
        let m = significand(bits);
        assert(0x10_0000_0000_0000 <= m < 0x20_0000_0000_0000);
        lemma_pow2_pos(p);
        if p <= 11 {
            if p < 11 {
                lemma_pow2_strictly_increases(p, 11);
            }
            assert(m * pow2(p) < 0x20_0000_0000_0000 * 0x800) by (nonlinear_arith)
                requires
                    m < 0x20_0000_0000_0000,
                    0 < pow2(p) <= 0x800,
            ;
        } else {
            if 12 < p {
                lemma_pow2_strictly_increases(12, p);
            }
            lemma_pow2_adds(11, 1);
            assert(pow2(1) == 2) by {
                vstd::arithmetic::power2::lemma2_to64();
            }
            assert(m * pow2(p) >= 0x10_0000_0000_0000 * 0x1000) by (nonlinear_arith)
                requires
                    m >= 0x10_0000_0000_0000,
                    pow2(p) >= 0x1000,
            ;
        }
    }
}

/// The span of a finite number of seconds, rounded to the nearest nanosecond.
pub fn seconds_to_duration(bits: u64) -> (r: Duration)
    requires
        is_span(bits),
        fits_seconds(bits),
    ensures
        r.wf(),
        r == duration_of(nanos_of(bits)),
        r.total_nanos() == nanos_of(bits),
{
    let e: u64 = bits / 0x10_0000_0000_0000 % 0x800;
    let f: u64 = bits % 0x10_0000_0000_0000;
    let m: u64 = if e == 0 { f } else { f + 0x10_0000_0000_0000 };
    proof {
        lemma_powers();
    }
    if e >= 1075 {
        let p: u64 = e - 1075;
        let mut scale: u64 = 1;
        let mut k: u64 = 0;
        assert(pow2(0) == 1) by {
            vstd::arithmetic::power2::lemma2_to64();
        }
        while k < p
            invariant
                k <= p <= 11,
                scale == pow2(k as nat),
                pow2(11) == 0x800,
            decreases p - k,
        {
            proof {
                lemma_pow2_adds(k as nat, 1);
                assert(pow2(1) == 2) by {
                    vstd::arithmetic::power2::lemma2_to64();
                }
                if k + 1 < 11 {
                    lemma_pow2_strictly_increases((k + 1) as nat, 11);
                }
            }
            scale = scale * 2;
            k += 1;
        }
        proof {
            lemma_fits_seconds(bits);
            assert(m * scale < 0x1_0000_0000_0000_0000);
            assert(m as int * 1_000_000_000 * scale == (m * scale) * 1_000_000_000) by (nonlinear_arith);
        }
        Duration { secs: m * scale, nanos: 0 }
    } else {
        let s: u64 = if e == 0 { 1074 } else { 1075 - e };
        let n: u128 = m as u128 * 1_000_000_000;
        if s > 100 {
            proof {
                lemma_pow2_strictly_increases(100, s as nat);
                let d = pow2(s as nat);
                vstd::arithmetic::div_mod::lemma_basic_div(n as int, d as int);
                vstd::arithmetic::div_mod::lemma_small_mod(n as nat, d);
            }
            return Duration { secs: 0, nanos: 0 };
        }
        let mut d: u128 = 1;
        let mut k: u64 = 0;
        assert(pow2(0) == 1) by {
            vstd::arithmetic::power2::lemma2_to64();
        }
        while k < s
            invariant
                k <= s <= 100,
                d == pow2(k as nat),
                pow2(100) == 0x10_0000_0000_0000_0000_0000_0000,
            decreases s - k,
        {
            proof {
                lemma_pow2_adds(k as nat, 1);
                assert(pow2(1) == 2) by {
                    vstd::arithmetic::power2::lemma2_to64();
                }
                if k + 1 < 100 {
                    lemma_pow2_strictly_increases((k + 1) as nat, 100);
                }
            }
            d = d * 2;
            k += 1;
        }
        proof {
            lemma_pow2_pos(s as nat);
            if s < 100 {
                lemma_pow2_strictly_increases(s as nat, 100);
            }
        }
        let quotient: u128 = n / d;
        let rest: u128 = n % d;
        proof {
            assert(quotient <= n) by (nonlinear_arith)
                requires
                    quotient == n / d,
                    d >= 1,
            ;
        }
        let total: u128 = if 2 * rest < d || (2 * rest == d && quotient % 2 == 0) {
            quotient
        } else {
            quotient + 1
        };
        assert(total == nanos_of(bits));
        Duration { secs: (total / 1_000_000_000) as u64, nanos: (total % 1_000_000_000) as u32 }
    }
}

} // verus!
