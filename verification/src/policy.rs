//! The density-band classification policy.
//!
//! A cell's *density* is the absolute value of coherent noise sampled at the
//! cell's scaled coordinate, a binary64 value in `[0, 1]`. The caller samples
//! it and hands it over as its raw IEEE-754 bit pattern, so this module can
//! decide every band exactly in integer arithmetic: for non-negative binary64
//! values, the order of the bit patterns (as `u64`) is the order of the
//! values, so a comparison against a rational threshold `q` becomes a single
//! comparison against the bit pattern of the smallest binary64 value that is
//! `>= q`.
//!
//! The per-cell uniform draw stays an integer as well: a raw 32-bit output
//! `u` of the coordinate-keyed generator stands for the fraction
//! `u / (2^32 - 1)`, and each comparison of that fraction against a rational
//! bound is cross-multiplied into exact integer form.
//!
//! The bands, in priority order (the first matching band wins; they are not
//! disjoint by construction, so the order matters):
//! - density `< 3/20`: Open (guaranteed-safe zone);
//! - `2/5 <= density < 53/100`: Bomb if the draw fraction is `< 3/5`,
//!   else Normal;
//! - density `> 3/5`: Bomb if the draw fraction is below
//!   `min(2/5, (density - 3/5) / (2/5))` (the hazard probability ramps up
//!   from 0 and is capped at 2/5), else Normal;
//! - anything else: Normal.

use crate::cell::CellResult;
use vstd::arithmetic::div_mod::lemma_fundamental_div_mod;
use vstd::arithmetic::div_mod::lemma_mod_bound;
use vstd::prelude::*;

verus! {

/// Bit pattern of the smallest binary64 value `>= 3/20`: densities strictly
/// below 3/20 are exactly those whose bit pattern is below this.
pub const OPEN_LIMIT_BITS: u64 = 0x3FC3333333333334;

/// Bit pattern of the smallest binary64 value `>= 2/5`.
pub const MID_LO_BITS: u64 = 0x3FD999999999999A;

/// Bit pattern of the smallest binary64 value `>= 53/100`.
pub const MID_HI_BITS: u64 = 0x3FE0F5C28F5C28F6;

/// Bit pattern of the smallest binary64 value `> 3/5`: densities strictly
/// above 3/5 are exactly those whose bit pattern is at least this.
pub const RAMP_LO_BITS: u64 = 0x3FE3333333333334;

/// The biased exponent field of a binary64 bit pattern.
pub open spec fn exp_field(bits: u64) -> int {
    (bits as int) / 0x10000000000000
}

/// The fraction field of a binary64 bit pattern.
pub open spec fn frac_field(bits: u64) -> int {
    (bits as int) % 0x10000000000000
}

/// The represented value scaled by `2^53`, for bit patterns whose biased
/// exponent is 1022 (value in `[1/2, 1)`) or 1023 (value in `[1, 2)`) --
/// the only exponents a density in the ramp band below 2 can carry.
pub open spec fn value_times_2_53(bits: u64) -> int {
    if exp_field(bits) == 1023 {
        2 * (0x10000000000000 + frac_field(bits))
    } else {
        0x10000000000000 + frac_field(bits)
    }
}

/// Draw fraction below 3/5: `u / (2^32 - 1) < 3/5`, cross-multiplied.
pub open spec fn mid_band_bomb(u: u32) -> bool {
    5 * (u as int) < 3 * 4294967295
}

/// Draw fraction below `min(2/5, (density - 3/5) / (2/5))`, cross-multiplied.
/// For densities `>= 2` (biased exponent 1024 or more) the ramp value is past
/// the cap, so only the cap comparison is left.
pub open spec fn ramp_bomb(bits: u64, u: u32) -> bool {
    &&& 5 * (u as int) < 2 * 4294967295
    &&& (exp_field(bits) >= 1024 || 2 * (u as int) * 0x20000000000000 < 4294967295 * (5
        * value_times_2_53(bits) - 3 * 0x20000000000000))
}

/// The full classification policy over the density bit pattern and the
/// per-cell draw. Opaque: proofs about whole chunks treat a cell's
/// classification as a plain value and never need the band structure;
/// `reveal(classify_spec)` brings it back where it is needed.
#[verifier::opaque]
pub open spec fn classify_spec(density_bits: u64, draw: u32) -> CellResult {
    if density_bits < OPEN_LIMIT_BITS {
        CellResult::Open
    } else if MID_LO_BITS <= density_bits && density_bits < MID_HI_BITS {
        if mid_band_bomb(draw) {
            CellResult::Bomb
        } else {
            CellResult::Normal
        }
    } else if density_bits >= RAMP_LO_BITS {
        if ramp_bomb(density_bits, draw) {
            CellResult::Bomb
        } else {
            CellResult::Normal
        }
    } else {
        CellResult::Normal
    }
}

/// The ramp-band decision: is the draw fraction below the ramped, capped
/// hazard probability?
fn ramp_hits(density_bits: u64, draw: u32) -> (r: bool)
    requires
        density_bits >= RAMP_LO_BITS,
    ensures
        r == ramp_bomb(density_bits, draw),
{
    if 5 * (draw as u64) >= 8589934590 {
        return false;
    }
    let exp: u64 = density_bits / 0x10000000000000;
    if exp >= 1024 {
        return true;
    }
    let frac: u64 = density_bits % 0x10000000000000;
    let mant: u64 = if exp == 1023 {
        2 * (0x10000000000000 + frac)
    } else {
        0x10000000000000 + frac
    };
    proof {
        lemma_fundamental_div_mod(density_bits as int, 0x10000000000000);
        lemma_mod_bound(density_bits as int, 0x10000000000000);
        if exp == 1023 {
            assert(mant >= 0x20000000000000);
        } else {
            assert(exp == 1022);
            assert(frac >= 900719925474100);
        }
        assert(5 * (mant as int) >= 3 * 0x20000000000000 + 4);
        assert(mant as int == value_times_2_53(density_bits));
    }
    let lhs: u128 = 2 * (draw as u128) * 0x20000000000000;
    let rhs: u128 = 4294967295u128 * (5 * (mant as u128) - 0x60000000000000);
    lhs < rhs
}

/// Classify one cell from its density bit pattern and its uniform draw.
pub fn classify_cell(density_bits: u64, draw: u32) -> (r: CellResult)
    ensures
        r == classify_spec(density_bits, draw),
{
    proof {
        reveal(classify_spec);
    }
    if density_bits < OPEN_LIMIT_BITS {
        CellResult::Open
    } else if MID_LO_BITS <= density_bits && density_bits < MID_HI_BITS {
        if 5 * (draw as u64) < 12884901885 {
            CellResult::Bomb
        } else {
            CellResult::Normal
        }
    } else if density_bits >= RAMP_LO_BITS {
        if ramp_hits(density_bits, draw) {
            CellResult::Bomb
        } else {
            CellResult::Normal
        }
    } else {
        CellResult::Normal
    }
}

} // verus!
