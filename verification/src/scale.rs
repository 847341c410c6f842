use vstd::prelude::*;
use vstd::arithmetic::mul::{lemma_mul_inequality, lemma_mul_is_associative, lemma_mul_strict_inequality};
use vstd::arithmetic::power2::{lemma2_to64, lemma_pow2_adds, lemma_pow2_pos, pow2};
use vstd::bits::lemma_u64_shl_is_mul;

verus! {

/// Number of fractional bits in a `Normalized` value.
pub const FRACTION_BITS: u32 = 32;

/// A normalized axis position: a binary fixed-point fraction with 32
/// fractional bits, so a stored word `bits` stands for the rational
/// number `bits / 2^32`.
///
/// A raw sample `s` taken at resolution `r` scales to `s / 2^r`, which
/// is held here exactly (for `r <= 32` the scaled numerator is an
/// integer), so positions from axes of different resolutions share one
/// denominator and compare directly.
#[derive(Debug, Clone, Copy, PartialEq, Eq)]
pub struct Normalized {
    pub bits: u64,
}

impl Normalized {
    /// The numerator of the fraction this value stands for; the
    /// denominator is always `2^32`.
    pub open spec fn frac(self) -> int {
        self.bits as int
    }
}

/// The fixed-point encoding of `raw / 2^resolution`: its numerator over
/// the fixed denominator `2^32`.
pub open spec fn scale_spec(raw: u16, resolution: u32) -> int
    recommends
        resolution < 32,
{
    (raw as int) * pow2((32 - resolution) as nat)
}

/// The scaled numerator fits comfortably in a 64-bit word.
proof fn lemma_scale_fits(raw: u16, resolution: u32)
    requires
        resolution < 32,
    ensures
        0 <= scale_spec(raw, resolution) <= (raw as int) * pow2(32),
        (raw as int) * pow2(32) < u64::MAX,
{
    let shift = (32 - resolution) as nat;
    lemma2_to64();
    lemma_pow2_pos(shift);
    assert(pow2(shift) <= pow2(32)) by {
        if shift < 32 {
            vstd::arithmetic::power2::lemma_pow2_strictly_increases(shift, 32);
        }
    }
    lemma_mul_inequality(pow2(shift) as int, pow2(32) as int, raw as int);
    assert((raw as int) * pow2(32) <= 65535 * pow2(32)) by {
        lemma_mul_inequality(raw as int, 65535, pow2(32) as int);
    }
    assert(scale_spec(raw, resolution) >= 0) by {
        vstd::arithmetic::mul::lemma_mul_nonnegative(raw as int, pow2(shift) as int);
    }
}

/// Scale one raw sample down by `2^resolution`, yielding its position
/// as a fixed-point fraction over `2^32`.
///
/// For a raw sample within the configured resolution the result lies in
/// the half-open unit interval: its numerator is below `2^32`.
pub fn scale(raw: u16, resolution: u32) -> (r: Normalized)
    requires
        resolution < 32,
    ensures
        r.frac() == scale_spec(raw, resolution),
        raw < pow2(resolution as nat) ==> r.frac() < pow2(32),
{
    let shift: u64 = (32 - resolution) as u64;
    proof {
        lemma_scale_fits(raw, resolution);
        lemma_u64_shl_is_mul(raw as u64, shift);
        if raw < pow2(resolution as nat) {
            lemma_scale_in_unit_interval(raw, resolution);
        }
    }
    Normalized { bits: (raw as u64) << shift }
}

/// Range law: a raw sample within the configured resolution scales to
/// a numerator below `2^32`, that is, to a position in the half-open
/// unit interval.
pub proof fn lemma_scale_in_unit_interval(raw: u16, resolution: u32)
    requires
        resolution < 32,
        raw < pow2(resolution as nat),
    ensures
        scale_spec(raw, resolution) < pow2(32),
{
    let shift = (32 - resolution) as nat;
    lemma_pow2_pos(shift);
    lemma_mul_strict_inequality(raw as int, pow2(resolution as nat) as int, pow2(shift) as int);
    lemma_pow2_adds(resolution as nat, shift);
}

/// Scaling law: the normalized position equals `raw / 2^resolution`
/// exactly. Cross-multiplied to stay in the integers: the numerator
/// times `2^resolution` equals the raw sample times the denominator.
pub proof fn lemma_scaling_exact(raw: u16, resolution: u32)
    requires
        resolution < 32,
    ensures
        scale_spec(raw, resolution) * pow2(resolution as nat) == (raw as int) * pow2(32),
{
    let shift = (32 - resolution) as nat;
    lemma_pow2_adds(shift, resolution as nat);
    lemma_mul_is_associative(raw as int, pow2(shift) as int, pow2(resolution as nat) as int);
}

} // verus!
