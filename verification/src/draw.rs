//! The coordinate-keyed per-cell draw.
//!
//! A cell's uniform draw must be a pure function of its absolute coordinate,
//! never of call order or of any mutable state: any cell must be reproducible
//! in isolation, whatever chunk request computes it. The key packs the low
//! 32 bits of `x` into the high half of a 64-bit state and the low 32 bits of
//! `y` into its low half; a fast PCG generator seeded with that state and a
//! fixed stream selector is asked for a single 32-bit output.

use crate::cell::CellResult;
use crate::policy::classify_cell;
use crate::policy::classify_spec;
use vstd::arithmetic::div_mod::lemma_mod_bound;
use vstd::arithmetic::div_mod::lemma_mod_multiples_vanish;
use vstd::prelude::*;

verus! {

/// Fixed stream selector of the per-cell generator.
pub const PCG_STREAM: u64 = 0x784df1818e1dd6c8;

/// Every cell reachable from an `i32` chunk coordinate (including the
/// padding border) has both absolute coordinates within this bound.
pub const COORD_BOUND: i64 = 0x800000010;

/// The first 32-bit output of a PCG-32 generator built from the given state
/// and stream. It is a function of the two arguments alone.
pub uninterp spec fn pcg32_first_spec(state: u64, stream: u64) -> u32;

/// Relies on `rand_pcg::Pcg32::new` and `rand_core::Rng::next_u32`: the
/// first output of a freshly built generator is determined by the state and
/// stream seeds alone.
#[verifier::external_body]
fn pcg32_first(state: u64, stream: u64) -> (r: u32)
    ensures
        r == pcg32_first_spec(state, stream),
{
    let mut rng = rand_pcg::Pcg32::new(state, stream);
    rand_core::Rng::next_u32(&mut rng)
}

/// The low 32 bits of an integer, as its residue modulo `2^32`.
pub open spec fn low_32(v: int) -> int {
    v % 0x100000000
}

/// The per-cell key: `x`'s low 32 bits in the high half, `y`'s in the low.
pub open spec fn cell_key(x: int, y: int) -> u64 {
    (low_32(x) * 0x100000000 + low_32(y)) as u64
}

/// The draw of the cell at absolute coordinate `(x, y)`.
pub open spec fn cell_draw(x: int, y: int) -> u32 {
    pcg32_first_spec(cell_key(x, y), PCG_STREAM)
}

/// The classification of the cell at absolute coordinate `(x, y)` whose
/// sampled density carries the given bit pattern.
pub open spec fn cell_spec(x: int, y: int, density_bits: u64) -> CellResult {
    classify_spec(density_bits, cell_draw(x, y))
}

fn take_low_32(v: i64) -> (r: u64)
    requires
        -COORD_BOUND <= v <= COORD_BOUND,
    ensures
        r == low_32(v as int),
{
    proof {
        lemma_mod_bound(v as int, 0x100000000);
    }
    if v >= 0 {
        (v as u64) % 0x100000000
    } else {
        proof {
            lemma_mod_multiples_vanish(16, v as int, 0x100000000);
        }
        ((v + 0x1000000000) as u64) % 0x100000000
    }
}

/// Classify one absolute cell from its sampled density bit pattern.
pub fn gen_cell(x: i64, y: i64, density_bits: u64) -> (r: CellResult)
    requires
        -COORD_BOUND <= x <= COORD_BOUND,
        -COORD_BOUND <= y <= COORD_BOUND,
    ensures
        r == cell_spec(x as int, y as int, density_bits),
{
    let hi: u64 = take_low_32(x);
    let lo: u64 = take_low_32(y);
    proof {
        lemma_mod_bound(x as int, 0x100000000);
        lemma_mod_bound(y as int, 0x100000000);
    }
    let key: u64 = hi * 0x100000000 + lo;
    assert(key == cell_key(x as int, y as int));
    let draw: u32 = pcg32_first(key, PCG_STREAM);
    classify_cell(density_bits, draw)
}

} // verus!
