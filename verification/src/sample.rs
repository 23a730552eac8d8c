//! The conversion of the plugin's output samples into the words that the
//! audio driver expects.
//!
//! A sample arrives as the bit pattern of a single-precision number `a`. It
//! is taken as `a` itself if it is not negative and as `2 + a` if it is;
//! that value times 32767 is rounded to the nearest whole number, halves
//! upwards, and limited to what thirty-two bits hold. The low sixteen bits
//! of the result make the high half of the driver's word; the low half of
//! the word is zero.

use vstd::prelude::*;
use vstd::arithmetic::div_mod::{lemma_basic_div, lemma_fundamental_div_mod_converse};
use vstd::arithmetic::power2::{lemma2_to64, lemma2_to64_rest, lemma_pow2_pos, lemma_pow2_strictly_increases, lemma_pow2_unfold, pow2};

verus! {

/// The factor by which a sample is scaled.
pub const SCALE: u64 = 32767;

/// Whether the sign bit of a pattern is set.
pub open spec fn sign_bit(bits: u32) -> bool {
    bits >= 0x8000_0000
}

/// The exponent field of a pattern.
pub open spec fn exponent_field(bits: u32) -> nat {
    ((bits / 0x80_0000) % 0x100) as nat
}

/// The fraction field of a pattern.
pub open spec fn fraction_field(bits: u32) -> nat {
    (bits % 0x80_0000) as nat
}

/// Whether a pattern stands for no number.
pub open spec fn is_nan(bits: u32) -> bool {
    exponent_field(bits) == 255 && fraction_field(bits) != 0
}

/// The significand `m` of a pattern: the magnitude of the number is
/// `m * 2^e` with the exponent `e` of [`exponent`].
pub open spec fn significand(bits: u32) -> nat {
    if exponent_field(bits) == 0 {
        fraction_field(bits)
    } else {
        fraction_field(bits) + 0x80_0000
    }
}

/// The exponent `e` of a pattern.
pub open spec fn exponent(bits: u32) -> int {
    if exponent_field(bits) == 0 {
        -149
    } else {
        exponent_field(bits) - 150
    }
}

/// `n * 2^e`, rounded to the nearest whole number, halves upwards.
pub open spec fn scaled(n: nat, e: int) -> nat {
    if e >= 0 {
        n * pow2(e as nat)
    } else {
        (n + pow2((-e - 1) as nat)) / pow2((-e) as nat)
    }
}

/// The level of a sample: the sample, or two more than the sample if it is
/// negative, times the scale, rounded, and limited to what thirty-two bits
/// hold. A pattern that stands for no number has the level zero.
pub open spec fn level(bits: u32) -> nat {
    let m = significand(bits);
    let e = exponent(bits);
    if is_nan(bits) {
        0
    } else if !sign_bit(bits) || m == 0 {
        if scaled(m * SCALE as nat, e) > u32::MAX {
            u32::MAX as nat
        } else {
            scaled(m * SCALE as nat, e)
        }
    } else if e > 0 || m >= 2 * pow2((-e) as nat) {
        0
    } else {
        scaled(((2 * pow2((-e) as nat) - m) * SCALE) as nat, e)
    }
}

/// The word that the driver gets: the low sixteen bits of the level in the
/// high half, zero in the low half.
pub open spec fn sample_word(bits: u32) -> u32 {
    ((level(bits) % 0x1_0000) * 0x1_0000) as u32
}

/// Packs a level into the driver's word.
pub fn pack_level(level: u32) -> (word: u32)
    ensures
        word == (level % 0x1_0000) * 0x1_0000,
        word % 0x1_0000 == 0,
        word / 0x1_0000 == level % 0x1_0000,
{
    (level % 0x1_0000) * 0x1_0000
}

fn pow2_u64(k: u64) -> (p: u64)
    requires
        k <= 41,
    ensures
        p == pow2(k as nat),
        1 <= p <= 0x200_0000_0000,
{
    let mut p: u64 = 1;
    let mut i: u64 = 0;
    proof {
        lemma2_to64();
        lemma2_to64_rest();
    }
    while i < k
        invariant
            i <= k,
            k <= 41,
            p == pow2(i as nat),
            1 <= p <= pow2(41),
            pow2(41) == 0x200_0000_0000,
        decreases k - i,
    {
        proof {
            lemma_pow2_unfold((i + 1) as nat);
            if i + 1 < 41 {
                lemma_pow2_strictly_increases((i + 1) as nat, 41);
            }
        }
        p = p * 2;
        i += 1;
    }
    p
}

/// A quantity far below a power of two vanishes when it is scaled down by
/// that power.
proof fn lemma_scaled_vanishes(n: nat, k: nat)
    requires
        k >= 41,
        n < 0x80_0000_0000,
    ensures
        scaled(n, -(k as int)) == 0,
{
    lemma2_to64();
    lemma2_to64_rest();
    lemma_pow2_unfold(k);
    if k - 1 > 39 {
        lemma_pow2_strictly_increases(39, (k - 1) as nat);
    }
    assert(pow2(39) == 0x80_0000_0000);
    assert(n + pow2((k - 1) as nat) < pow2(k));
    lemma_basic_div((n + pow2((k - 1) as nat)) as int, pow2(k) as int);
}

/// Two, less a quantity that is tiny against the scale, comes to twice the
/// scale when it is scaled and rounded.
proof fn lemma_scaled_near_two(m: nat, k: nat)
    requires
        k >= 41,
        0 < m < 0x100_0000,
    ensures
        m < 2 * pow2(k),
        scaled(((2 * pow2(k) - m) * SCALE) as nat, -(k as int)) == 65534,
{
    lemma2_to64();
    lemma2_to64_rest();
    lemma_pow2_unfold(k);
    lemma_pow2_pos((k - 1) as nat);
    if k - 1 > 40 {
        lemma_pow2_strictly_increases(40, (k - 1) as nat);
    }
    assert(pow2(40) == 0x100_0000_0000);
    let half = pow2((k - 1) as nat) as int;
    let whole = pow2(k) as int;
    assert(whole == 2 * half);
    let n = (2 * whole - m) * 32767;
    let r = half - m * 32767;
    assert(m * 32767 < 0x100_0000 * 32767) by (nonlinear_arith)
        requires
            m < 0x100_0000,
    ;
    assert(0 <= r < whole);
    assert(n + half == 65534 * whole + r) by (nonlinear_arith)
        requires
            n == (2 * whole - m) * 32767,
            r == half - m * 32767,
            whole == 2 * half,
    ;
    lemma_fundamental_div_mod_converse(n + half, whole, 65534, r);
}

/// Converts one sample, given as the bit pattern of a single-precision
/// number, into the word that the driver expects.
pub fn convert_sample(bits: u32) -> (word: u32)
    ensures
        word == sample_word(bits),
{
    let negative = bits >= 0x8000_0000;
    let field: u32 = (bits / 0x80_0000) % 0x100;
    let fraction: u32 = bits % 0x80_0000;
    if field == 255 && fraction != 0 {
        return pack_level(0);
    }
    let m: u64 = if field == 0 {
        fraction as u64
    } else {
        fraction as u64 + 0x80_0000
    };
    proof {
        lemma2_to64();
    }
    let level: u32 = if !negative || m == 0 {
        let n: u64 = m * SCALE;
        if field >= 150 {
            proof {
                let e = (field - 150) as nat;
                lemma_pow2_pos(e);
                assert(n * pow2(e) >= n) by (nonlinear_arith)
                    requires
                        pow2(e) >= 1,
                ;
            }
            0xFFFF_FFFF
        } else {
            let k: u64 = if field == 0 {
                149
            } else {
                150 - field as u64
            };
            if k >= 41 {
                proof {
                    lemma_scaled_vanishes(n as nat, k as nat);
                }
                0
            } else {
                let half = pow2_u64(k - 1);
                let whole = pow2_u64(k);
                let rounded: u64 = (n + half) / whole;
                if rounded > 0xFFFF_FFFF {
                    0xFFFF_FFFF
                } else {
                    rounded as u32
                }
            }
        }
    } else if field >= 151 {
        0
    } else {
        let k: u64 = if field == 0 {
            149
        } else {
            150 - field as u64
        };
        if k >= 41 {
            proof {
                lemma_scaled_near_two(m as nat, k as nat);
            }
            65534
        } else {
            let whole = pow2_u64(k);
            if m >= 2 * whole {
                0
            } else {
                let n: u64 = (2 * whole - m) * SCALE;
                if k == 0 {
                    proof {
                        assert(pow2(0) == 1);
                        assert(n * pow2(0) == n);
                    }
                    n as u32
                } else {
                    let half = pow2_u64(k - 1);
                    proof {
                        lemma_pow2_unfold(k as nat);
                        assert(n + half <= 65535 * whole) by (nonlinear_arith)
                            requires
                                n == (2 * whole - m) * 32767,
                                m >= 1,
                                whole == 2 * half,
                                half >= 1,
                        ;
                        let total = (n + half) as int;
                        let unit = whole as int;
                        assert(total / unit <= 65535) by (nonlinear_arith)
                            requires
                                total <= 65535 * unit,
                                unit > 0,
                        ;
                    }
                    ((n + half) / whole) as u32
                }
            }
        }
    };
    pack_level(level)
}

/// Converts the samples of a buffer in place.
pub fn convert_buffer(buffer: &mut Vec<u32>)
    ensures
        final(buffer)@.len() == old(buffer)@.len(),
        forall|i: int| 0 <= i < old(buffer)@.len() ==> final(buffer)@[i] == sample_word(old(buffer)@[i]),
{
    let mut i: usize = 0;
    while i < buffer.len()
        invariant
            i <= buffer.len(),
            buffer@.len() == old(buffer)@.len(),
            forall|j: int| 0 <= j < i ==> buffer@[j] == sample_word(old(buffer)@[j]),
            forall|j: int| i <= j < buffer@.len() ==> buffer@[j] == old(buffer)@[j],
        decreases buffer.len() - i,
    {
        let word = convert_sample(buffer[i]);
        buffer.set(i, word);
        i += 1;
    }
}

} // verus!
