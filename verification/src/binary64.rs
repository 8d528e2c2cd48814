//! Exact reading of IEEE 754 binary64 values from their bit patterns.
//!
//! A finite binary64 value is `numerator * 2^exponent` for two integers that
//! its bits give directly. Everything the grid needs of a coordinate (whether
//! it is finite, how it compares with a whole number, its floor) is decided on
//! those two integers, so no rounding ever takes place.
use vstd::arithmetic::div_mod::*;
use vstd::arithmetic::mul::*;
use vstd::arithmetic::power2::*;
use vstd::bits::*;
use vstd::prelude::*;

verus! {

/// The value of the lowest exponent bit, 2^52.
pub const HIDDEN_BIT: u64 = 0x10_0000_0000_0000;

/// The value of the sign bit, 2^63.
pub const SIGN_BIT: u64 = 0x8000_0000_0000_0000;

/// Floors are reported only strictly between `-FLOOR_LIMIT` and
/// `FLOOR_LIMIT`, which is 2^62.
pub const FLOOR_LIMIT: i64 = 0x4000_0000_0000_0000;

/// Whether the sign bit is set.
pub open spec fn is_negative(bits: u64) -> bool {
    bits >= SIGN_BIT
}

/// The eleven exponent bits, as a number in 0..=2047.
pub open spec fn exponent_field(bits: u64) -> int {
    (bits as int / HIDDEN_BIT as int) % 2048
}

/// The fifty-two fraction bits, as a number.
pub open spec fn fraction_field(bits: u64) -> int {
    bits as int % HIDDEN_BIT as int
}

/// Whether the bits stand for a number: neither an infinity nor a NaN.
pub open spec fn is_finite(bits: u64) -> bool {
    exponent_field(bits) != 2047
}

/// The significand as an integer, with the hidden bit of a normal number.
pub open spec fn significand(bits: u64) -> int {
    if exponent_field(bits) == 0 {
        fraction_field(bits)
    } else {
        fraction_field(bits) + HIDDEN_BIT as int
    }
}

/// The power of two that the significand is multiplied by.
pub open spec fn exponent(bits: u64) -> int {
    if exponent_field(bits) == 0 {
        -1074
    } else {
        exponent_field(bits) - 1075
    }
}

/// The signed significand: the value is `numerator * 2^exponent`.
pub open spec fn numerator(bits: u64) -> int {
    if is_negative(bits) {
        -significand(bits)
    } else {
        significand(bits)
    }
}

/// The floor of the value times `2^scale`.
pub open spec fn scaled_floor(bits: u64, scale: nat) -> int {
    let e = exponent(bits) + scale;
    if e >= 0 {
        numerator(bits) * pow2(e as nat)
    } else {
        numerator(bits) / (pow2((-e) as nat) as int)
    }
}

/// Whether the value times `2^scale` is a whole number.
pub open spec fn scaled_is_whole(bits: u64, scale: nat) -> bool {
    let e = exponent(bits) + scale;
    e >= 0 || numerator(bits) % (pow2((-e) as nat) as int) == 0
}

/// The floor of the value.
pub open spec fn floor(bits: u64) -> int {
    scaled_floor(bits, 0)
}

/// Whether the value is a whole number.
pub open spec fn is_whole(bits: u64) -> bool {
    scaled_is_whole(bits, 0)
}

/// Whether the value is at least the whole number `bound`.
pub open spec fn at_least(bits: u64, bound: int) -> bool {
    let e = exponent(bits);
    if e >= 0 {
        numerator(bits) * pow2(e as nat) >= bound
    } else {
        numerator(bits) >= bound * pow2((-e) as nat)
    }
}

/// Whether the value is at most the whole number `bound`.
pub open spec fn at_most(bits: u64, bound: int) -> bool {
    let e = exponent(bits);
    if e >= 0 {
        numerator(bits) * pow2(e as nat) <= bound
    } else {
        numerator(bits) <= bound * pow2((-e) as nat)
    }
}

/// Whether the value is finite and lies in the closed range from `low` to
/// `high`.
pub open spec fn within(bits: u64, low: int, high: int) -> bool {
    is_finite(bits) && at_least(bits, low) && at_most(bits, high)
}

/// Division of a negated number: the quotient of `-n` by `d` is the negated
/// quotient of `n`, one lower when `d` does not divide `n`.
proof fn lemma_negated_division(n: int, d: int)
    requires
        0 <= n,
        0 < d,
    ensures
        (-n) / d == if n % d == 0 {
            -(n / d)
        } else {
            -(n / d) - 1
        },
        ((-n) % d == 0) == (n % d == 0),
{
    let q = n / d;
    let r = n % d;
    lemma_fundamental_div_mod(n, d);
    lemma_mod_pos_bound(n, d);
    assert(n == d * q + r);
    if r == 0 {
        assert(-n == (-q) * d + 0) by (nonlinear_arith)
            requires
                n == d * q + r,
                r == 0,
        ;
        lemma_fundamental_div_mod_converse(-n, d, -q, 0);
    } else {
        assert(-n == (-q - 1) * d + (d - r)) by (nonlinear_arith)
            requires
                n == d * q + r,
        ;
        lemma_fundamental_div_mod_converse(-n, d, -q - 1, d - r);
    }
}

/// Comparing with a whole number is a matter of the floor: the value is at
/// least `bound` when its floor is, and at most `bound` when its floor is
/// below `bound`, or equals it and nothing is cut off.
pub proof fn lemma_floor_decides(bits: u64, bound: int)
    ensures
        at_least(bits, bound) == (floor(bits) >= bound),
        at_most(bits, bound) == (floor(bits) < bound || (floor(bits) == bound && is_whole(bits))),
{
    let e = exponent(bits);
    let n = numerator(bits);
    if e < 0 {
        let d = pow2((-e) as nat) as int;
        lemma_pow2_pos((-e) as nat);
        let q = n / d;
        let r = n % d;
        lemma_fundamental_div_mod(n, d);
        lemma_mod_bound(n, d);
        assert((n >= bound * d) == (q >= bound)) by (nonlinear_arith)
            requires
                n == d * q + r,
                0 <= r < d,
        ;
        assert((n <= bound * d) == (q < bound || (q == bound && r == 0))) by (nonlinear_arith)
            requires
                n == d * q + r,
                0 <= r < d,
        ;
    }
}

/// A number cut down to the whole number below it.
#[derive(Clone, Copy, Debug, PartialEq, Eq, Structural)]
pub struct Floored {
    /// The largest whole number that is not above the number.
    pub floor: i64,
    /// Whether the number was whole, so that nothing was cut off.
    pub whole: bool,
}

/// Reads the floor of `value * 2^scale` and whether that product is whole.
///
/// The answer is `None` for an infinity or a NaN, and for a floor that is not
/// strictly between `-FLOOR_LIMIT` and `FLOOR_LIMIT`.
pub fn floor_scaled(bits: u64, scale: u8) -> (r: Option<Floored>)
    ensures
        r is Some <==> is_finite(bits) && -FLOOR_LIMIT < scaled_floor(bits, scale as nat)
            < FLOOR_LIMIT,
        r is Some ==> r->0.floor == scaled_floor(bits, scale as nat) && r->0.whole
            == scaled_is_whole(bits, scale as nat),
{
    let field: u64 = (bits >> 52) & 0x7ff;
    let fraction: u64 = bits & 0xf_ffff_ffff_ffff;
    let negative: bool = bits >= SIGN_BIT;
    proof {
        assert(((bits >> 52) & 0x7ff) == (bits / 0x10_0000_0000_0000) % 2048) by (bit_vector);
        assert((bits & 0xf_ffff_ffff_ffff) == bits % 0x10_0000_0000_0000) by (bit_vector);
        assert(field == exponent_field(bits));
        assert(fraction == fraction_field(bits));
    }
    if field == 0x7ff {
        return None;
    }
    let magnitude: u64 = if field == 0 {
        fraction
    } else {
        fraction + HIDDEN_BIT
    };
    let e: i64 = (if field == 0 {
        1i64
    } else {
        field as i64
    }) - 1075 + scale as i64;
    proof {
        assert(magnitude == significand(bits));
        assert(e == exponent(bits) + scale as nat);
        lemma2_to64();
        lemma2_to64_rest();
    }
    if magnitude == 0 {
        proof {
            if e >= 0 {
                lemma_mul_basics(pow2(e as nat) as int);
            } else {
                lemma_pow2_pos((-e) as nat);
                lemma_negated_division(0, pow2((-e) as nat) as int);
            }
        }
        return Some(Floored { floor: 0, whole: true });
    }
    if e >= 0 {
        if e > 9 {
            proof {
                // A normal number: its significand has the hidden bit.
                assert(field != 0);
                assert(magnitude >= HIDDEN_BIT);
                if e > 10 {
                    lemma_pow2_strictly_increases(10, e as nat);
                }
                assert(pow2(e as nat) >= 1024);
                assert(magnitude * pow2(e as nat) >= FLOOR_LIMIT) by (nonlinear_arith)
                    requires
                        magnitude >= 0x10_0000_0000_0000,
                        pow2(e as nat) >= 1024,
                        FLOOR_LIMIT == 0x4000_0000_0000_0000,
                ;
                assert((-(magnitude as int)) * pow2(e as nat) == -(magnitude * pow2(e as nat)))
                    by (nonlinear_arith);
            }
            return None;
        }
        proof {
            if e < 9 {
                lemma_pow2_strictly_increases(e as nat, 9);
            }
            assert(pow2(e as nat) <= 512);
            assert(magnitude * pow2(e as nat) < FLOOR_LIMIT) by (nonlinear_arith)
                requires
                    0 <= magnitude < 0x20_0000_0000_0000,
                    0 <= pow2(e as nat) <= 512,
                    FLOOR_LIMIT == 0x4000_0000_0000_0000,
            ;
            lemma_u64_shl_is_mul(magnitude, e as u64);
            assert((-(magnitude as int)) * pow2(e as nat) == -(magnitude * pow2(e as nat)))
                by (nonlinear_arith);
        }
        let shifted: u64 = magnitude << (e as u64);
        let whole: i64 = shifted as i64;
        if negative {
            Some(Floored { floor: -whole, whole: true })
        } else {
            Some(Floored { floor: whole, whole: true })
        }
    } else {
        let down: u64 = (-e) as u64;
        proof {
            lemma_pow2_pos(down as nat);
        }
        if down >= 64 {
            proof {
                if down > 64 {
                    lemma_pow2_strictly_increases(64, down as nat);
                }
                let d = pow2(down as nat) as int;
                assert(magnitude < d);
                lemma_fundamental_div_mod_converse(magnitude as int, d, 0, magnitude as int);
                lemma_negated_division(magnitude as int, d);
            }
            if negative {
                Some(Floored { floor: -1, whole: false })
            } else {
                Some(Floored { floor: 0, whole: false })
            }
        } else {
            let quotient: u64 = magnitude >> down;
            proof {
                let d = pow2(down as nat) as int;
                lemma_u64_shr_is_div(magnitude, down);
                assert(quotient == magnitude as int / d);
                lemma_fundamental_div_mod(magnitude as int, d);
                lemma_mod_bound(magnitude as int, d);
                assert(quotient * d <= magnitude) by (nonlinear_arith)
                    requires
                        magnitude == d * quotient + (magnitude as int % d),
                        0 <= magnitude as int % d,
                ;
                lemma_u64_shl_is_mul(quotient, down);
                lemma_negated_division(magnitude as int, d);
                assert((quotient * d == magnitude) == (magnitude as int % d == 0))
                    by (nonlinear_arith)
                    requires
                        magnitude == d * quotient + (magnitude as int % d),
                ;
            }
            let exact: bool = (quotient << down) == magnitude;
            let below: i64 = quotient as i64;
            if negative {
                if exact {
                    Some(Floored { floor: -below, whole: true })
                } else {
                    Some(Floored { floor: -below - 1, whole: false })
                }
            } else {
                Some(Floored { floor: below, whole: exact })
            }
        }
    }
}

} // verus!
