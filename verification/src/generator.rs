//! The chunk generator.
//!
//! A generator owns a seed and a coherent-noise source built once from that
//! seed, and is queried any number of times, statelessly, for 16 x 16 chunks
//! of an unbounded lattice. A chunk request classifies a padded 18 x 18
//! square (the chunk plus a one-cell border on every side), reads the chunk
//! interior out of it, and counts each interior cell's Bomb neighbors from
//! the same padded data, so that counts at chunk edges come out right
//! without any stored inter-chunk state.
//!
//! The noise source is an opaque outside capability that works in floating
//! point, so the caller samples it: a chunk request takes the padded
//! square's density bit patterns, row-major, one `u64` per cell, sampled at
//! the cell's absolute coordinate (see [`crate::policy`] for the encoding).
//! Everything after the sampling is verified here.

use crate::cell::CellResult;
use crate::draw::cell_spec;
use crate::draw::gen_cell;
use vstd::prelude::*;

verus! {

/// A chunk is this much in x and this much in y.
pub const CHUNK_SIZE: i32 = 16;

#[verifier::external_type_specification]
#[verifier::external_body]
pub struct ExPerlin(noise::Perlin);

/// Relies on `noise::Perlin::new`: builds the coherent-noise source for the
/// given seed.
#[verifier::external_body]
fn make_perlin(seed: u32) -> noise::Perlin {
    noise::Perlin::new(seed)
}

/// The chunk generator: a seed and the noise source built from it.
pub struct Generator {
    pub seed: u32,
    pub perlin: noise::Perlin,
}

/// The absolute coordinate of a padded-square cell: offset `off` in `[0, 18)`
/// within the padded square of the chunk at coordinate `chunk`.
pub open spec fn abs_coord(chunk: int, off: int) -> int {
    chunk * 16 - 1 + off
}

/// The raw classification of the padded-square cell at `(px, py)`, from the
/// sampled density square `d` (row-major, 18 x 18).
pub open spec fn pad_at(cx: int, cy: int, d: Seq<u64>, px: int, py: int) -> CellResult {
    cell_spec(abs_coord(cx, px), abs_coord(cy, py), d[py * 18 + px])
}

/// 1 for a Bomb, 0 for anything else.
pub open spec fn hazard_one(c: CellResult) -> int {
    if c == CellResult::Bomb {
        1
    } else {
        0
    }
}

/// How many of the eight neighbors of the interior cell at `(lx, ly)`
/// (both in `[0, 16)`) classify as Bomb. The cell itself is not counted.
/// Opaque for the same reason as [`crate::policy::classify_spec`].
#[verifier::opaque]
pub open spec fn neighbor_count_at(cx: int, cy: int, d: Seq<u64>, lx: int, ly: int) -> int {
    hazard_one(pad_at(cx, cy, d, lx, ly)) + hazard_one(pad_at(cx, cy, d, lx + 1, ly))
        + hazard_one(pad_at(cx, cy, d, lx + 2, ly)) + hazard_one(pad_at(cx, cy, d, lx, ly + 1))
        + hazard_one(pad_at(cx, cy, d, lx + 2, ly + 1)) + hazard_one(
        pad_at(cx, cy, d, lx, ly + 2),
    ) + hazard_one(pad_at(cx, cy, d, lx + 1, ly + 2)) + hazard_one(
        pad_at(cx, cy, d, lx + 2, ly + 2),
    )
}

/// The raw classification of the interior cell at `(lx, ly)`: the padded
/// square read at `(lx + 1, ly + 1)`.
pub open spec fn raw_class_at(cx: int, cy: int, d: Seq<u64>, lx: int, ly: int) -> CellResult {
    pad_at(cx, cy, d, lx + 1, ly + 1)
}

/// The reported classification of the interior cell at `(lx, ly)`: the raw
/// one, except that an Open cell with a Bomb neighbor is upgraded to Normal.
/// Open promises a neighbor count of zero, and the raw density bands alone
/// do not guarantee that, so the upgrade repairs the promise
/// deterministically.
pub open spec fn class_at(cx: int, cy: int, d: Seq<u64>, lx: int, ly: int) -> CellResult {
    if raw_class_at(cx, cy, d, lx, ly) == CellResult::Open && neighbor_count_at(
        cx,
        cy,
        d,
        lx,
        ly,
    ) > 0 {
        CellResult::Normal
    } else {
        raw_class_at(cx, cy, d, lx, ly)
    }
}

/// What a chunk request returns: both row-major arrays hold one entry per
/// interior cell, the classifications and the neighbor counts.
pub open spec fn gen_chunk_post(
    cx: int,
    cy: int,
    d: Seq<u64>,
    cells: Seq<CellResult>,
    counts: Seq<u8>,
) -> bool {
    &&& cells.len() == 256
    &&& counts.len() == 256
    &&& forall|lx: int, ly: int|
        0 <= lx < 16 && 0 <= ly < 16 ==> cells[ly * 16 + lx] == class_at(cx, cy, d, lx, ly)
    &&& forall|lx: int, ly: int|
        0 <= lx < 16 && 0 <= ly < 16 ==> counts[ly * 16 + lx] == neighbor_count_at(
            cx,
            cy,
            d,
            lx,
            ly,
        )
}

impl Generator {
    /// Build a generator. The same seed gives the same noise source, and so
    /// the same output for every coordinate, forever.
    pub fn new_from_seed(seed: u32) -> (r: Generator)
        ensures
            r.seed == seed,
    {
        Generator { seed, perlin: make_perlin(seed) }
    }

    /// The seed this generator was built from.
    pub fn seed(&self) -> (r: u32)
        ensures
            r == self.seed,
    {
        self.seed
    }

    /// Generate the chunk at `(chunk_x, chunk_y)` from the padded square of
    /// sampled density bit patterns: the classifications and the neighbor
    /// counts of the 16 x 16 interior, row-major.
    #[verifier::rlimit(80)]
    pub fn gen_chunk(&self, chunk_x: i32, chunk_y: i32, density_bits: &Vec<u64>) -> (r: (
        Vec<CellResult>,
        Vec<u8>,
    ))
        requires
            density_bits@.len() == 324,
        ensures
            gen_chunk_post(chunk_x as int, chunk_y as int, density_bits@, r.0@, r.1@),
            forall|i: int| 0 <= i < 256 ==> #[trigger] r.1@[i] <= 8,
            forall|i: int|
                0 <= i < 256 && #[trigger] r.0@[i] == CellResult::Open ==> r.1@[i] == 0,
    {
        let cxi: i64 = chunk_x as i64;
        let cyi: i64 = chunk_y as i64;
        let ghost cx: int = chunk_x as int;
        let ghost cy: int = chunk_y as int;
        let ghost d: Seq<u64> = density_bits@;

        let mut padded: Vec<CellResult> = Vec::new();
        let mut py: usize = 0;
        while py < 18
            invariant
                py <= 18,
                padded@.len() == py * 18,
                density_bits@.len() == 324,
                cxi == cx,
                cyi == cy,
                d == density_bits@,
                -0x80000000 <= cx <= 0x7fffffff,
                -0x80000000 <= cy <= 0x7fffffff,
                forall|qx: int, qy: int|
                    0 <= qx < 18 && 0 <= qy < py ==> padded@[qy * 18 + qx] == pad_at(
                        cx,
                        cy,
                        d,
                        qx,
                        qy,
                    ),
            decreases 18 - py,
        {
            let mut px: usize = 0;
            while px < 18
                invariant
                    px <= 18,
                    py < 18,
                    padded@.len() == py * 18 + px,
                    density_bits@.len() == 324,
                    cxi == cx,
                    cyi == cy,
                    d == density_bits@,
                    -0x80000000 <= cx <= 0x7fffffff,
                    -0x80000000 <= cy <= 0x7fffffff,
                    forall|qx: int, qy: int|
                        0 <= qx < 18 && 0 <= qy < py ==> padded@[qy * 18 + qx] == pad_at(
                            cx,
                            cy,
                            d,
                            qx,
                            qy,
                        ),
                    forall|qx: int|
                        0 <= qx < px ==> padded@[py * 18 + qx] == pad_at(cx, cy, d, qx, py as int),
                decreases 18 - px,
            {
                let ax: i64 = cxi * 16 - 1 + (px as i64);
                let ay: i64 = cyi * 16 - 1 + (py as i64);
                let idx: usize = py * 18 + px;
                let c: CellResult = gen_cell(ax, ay, density_bits[idx]);
                padded.push(c);
                assert(padded@[py * 18 + px] == pad_at(cx, cy, d, px as int, py as int));
                px = px + 1;
            }
            py = py + 1;
        }

        let mut cells: Vec<CellResult> = Vec::new();
        let mut counts: Vec<u8> = Vec::new();
        let mut ly: usize = 0;
        while ly < 16
            invariant
                ly <= 16,
                cells@.len() == ly * 16,
                counts@.len() == ly * 16,
                padded@.len() == 324,
                density_bits@.len() == 324,
                d == density_bits@,
                forall|qx: int, qy: int|
                    0 <= qx < 18 && 0 <= qy < 18 ==> padded@[qy * 18 + qx] == pad_at(
                        cx,
                        cy,
                        d,
                        qx,
                        qy,
                    ),
                forall|qx: int, qy: int|
                    0 <= qx < 16 && 0 <= qy < ly ==> cells@[qy * 16 + qx] == class_at(
                        cx,
                        cy,
                        d,
                        qx,
                        qy,
                    ),
                forall|qx: int, qy: int|
                    0 <= qx < 16 && 0 <= qy < ly ==> counts@[qy * 16 + qx]
                        == #[trigger] neighbor_count_at(cx, cy, d, qx, qy),
                forall|qx: int, qy: int|
                    0 <= qx < 16 && 0 <= qy < ly ==> #[trigger] neighbor_count_at(cx, cy, d, qx, qy)
                        <= 8,
            decreases 16 - ly,
        {
            let mut lx: usize = 0;
            while lx < 16
                invariant
                    lx <= 16,
                    ly < 16,
                    cells@.len() == ly * 16 + lx,
                    counts@.len() == ly * 16 + lx,
                    padded@.len() == 324,
                    density_bits@.len() == 324,
                    d == density_bits@,
                    forall|qx: int, qy: int|
                        0 <= qx < 18 && 0 <= qy < 18 ==> padded@[qy * 18 + qx] == pad_at(
                            cx,
                            cy,
                            d,
                            qx,
                            qy,
                        ),
                    forall|qx: int, qy: int|
                        0 <= qx < 16 && 0 <= qy < ly ==> cells@[qy * 16 + qx] == class_at(
                            cx,
                            cy,
                            d,
                            qx,
                            qy,
                        ),
                    forall|qx: int, qy: int|
                        0 <= qx < 16 && 0 <= qy < ly ==> counts@[qy * 16 + qx]
                            == #[trigger] neighbor_count_at(cx, cy, d, qx, qy),
                    forall|qx: int, qy: int|
                        0 <= qx < 16 && 0 <= qy < ly ==> #[trigger] neighbor_count_at(cx, cy, d, qx, qy)
                            <= 8,
                    forall|qx: int|
                        0 <= qx < lx ==> cells@[ly * 16 + qx] == class_at(cx, cy, d, qx, ly as int),
                    forall|qx: int|
                        0 <= qx < lx ==> counts@[ly * 16 + qx]
                            == #[trigger] neighbor_count_at(cx, cy, d, qx, ly as int),
                    forall|qx: int|
                        0 <= qx < lx ==> #[trigger] neighbor_count_at(cx, cy, d, qx, ly as int)
                            <= 8,
                decreases 16 - lx,
            {
                let ghost qx: int = lx as int;
                let ghost qy: int = ly as int;
                proof {
                    assert(padded@[qy * 18 + qx] == pad_at(cx, cy, d, qx, qy));
                    assert(padded@[qy * 18 + (qx + 1)] == pad_at(cx, cy, d, qx + 1, qy));
                    assert(padded@[qy * 18 + (qx + 2)] == pad_at(cx, cy, d, qx + 2, qy));
                    assert(padded@[(qy + 1) * 18 + qx] == pad_at(cx, cy, d, qx, qy + 1));
                    assert(padded@[(qy + 1) * 18 + (qx + 1)] == pad_at(cx, cy, d, qx + 1, qy + 1));
                    assert(padded@[(qy + 1) * 18 + (qx + 2)] == pad_at(cx, cy, d, qx + 2, qy + 1));
                    assert(padded@[(qy + 2) * 18 + qx] == pad_at(cx, cy, d, qx, qy + 2));
                    assert(padded@[(qy + 2) * 18 + (qx + 1)] == pad_at(cx, cy, d, qx + 1, qy + 2));
                    assert(padded@[(qy + 2) * 18 + (qx + 2)] == pad_at(cx, cy, d, qx + 2, qy + 2));
                }
                let raw: CellResult = padded[(ly + 1) * 18 + (lx + 1)];
                let mut n: u8 = 0;
                if padded[ly * 18 + lx] == CellResult::Bomb {
                    n = n + 1;
                }
                if padded[ly * 18 + (lx + 1)] == CellResult::Bomb {
                    n = n + 1;
                }
                if padded[ly * 18 + (lx + 2)] == CellResult::Bomb {
                    n = n + 1;
                }
                if padded[(ly + 1) * 18 + lx] == CellResult::Bomb {
                    n = n + 1;
                }
                if padded[(ly + 1) * 18 + (lx + 2)] == CellResult::Bomb {
                    n = n + 1;
                }
                if padded[(ly + 2) * 18 + lx] == CellResult::Bomb {
                    n = n + 1;
                }
                if padded[(ly + 2) * 18 + (lx + 1)] == CellResult::Bomb {
                    n = n + 1;
                }
                if padded[(ly + 2) * 18 + (lx + 2)] == CellResult::Bomb {
                    n = n + 1;
                }
                assert(n as int == neighbor_count_at(cx, cy, d, lx as int, ly as int)) by {
                    reveal(neighbor_count_at);
                }
                assert(raw == raw_class_at(cx, cy, d, lx as int, ly as int));
                let cls: CellResult = if n > 0 && raw == CellResult::Open {
                    CellResult::Normal
                } else {
                    raw
                };
                cells.push(cls);
                counts.push(n);
                assert(cells@[ly * 16 + lx] == class_at(cx, cy, d, lx as int, ly as int));
                assert(counts@[ly * 16 + lx] == neighbor_count_at(cx, cy, d, lx as int, ly as int)
                    && counts@[ly * 16 + lx] <= 8);
                lx = lx + 1;
            }
            ly = ly + 1;
        }

        proof {
            assert forall|i: int| 0 <= i < 256 implies #[trigger] counts@[i] <= 8 && (cells@[i]
                == CellResult::Open ==> counts@[i] == 0) by {
                let qy: int = i / 16;
                let qx: int = i % 16;
                vstd::arithmetic::div_mod::lemma_fundamental_div_mod(i, 16);
                vstd::arithmetic::div_mod::lemma_mod_bound(i, 16);
                assert(cells@[qy * 16 + qx] == class_at(cx, cy, d, qx, qy));
                assert(counts@[qy * 16 + qx] == neighbor_count_at(cx, cy, d, qx, qy));
            }
        }
        (cells, counts)
    }
}

} // verus!
