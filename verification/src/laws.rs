//! The guarantees the generator makes across calls and across chunks,
//! stated and proved over the same specification functions that
//! [`crate::generator`]'s contracts use.

use crate::cell::CellResult;
use crate::generator::abs_coord;
use crate::generator::class_at;
use crate::generator::gen_chunk_post;
use crate::generator::hazard_one;
use crate::generator::neighbor_count_at;
use crate::generator::pad_at;
use crate::generator::raw_class_at;
use crate::draw::cell_spec;
use vstd::arithmetic::div_mod::lemma_fundamental_div_mod;
use vstd::arithmetic::div_mod::lemma_mod_bound;
use vstd::prelude::*;

verus! {

/// Determinism: any two chunk results for the same chunk coordinate and the
/// same sampled densities are identical, entry for entry.
pub proof fn lemma_generate_deterministic(
    cx: int,
    cy: int,
    d: Seq<u64>,
    cells1: Seq<CellResult>,
    counts1: Seq<u8>,
    cells2: Seq<CellResult>,
    counts2: Seq<u8>,
)
    requires
        gen_chunk_post(cx, cy, d, cells1, counts1),
        gen_chunk_post(cx, cy, d, cells2, counts2),
    ensures
        cells1 == cells2,
        counts1 == counts2,
{
    assert forall|i: int| 0 <= i < 256 implies cells1[i] == cells2[i] && counts1[i]
        == counts2[i] by {
        let qy: int = i / 16;
        let qx: int = i % 16;
        lemma_fundamental_div_mod(i, 16);
        lemma_mod_bound(i, 16);
        assert(cells1[qy * 16 + qx] == class_at(cx, cy, d, qx, qy));
        assert(cells2[qy * 16 + qx] == class_at(cx, cy, d, qx, qy));
        assert(counts1[qy * 16 + qx] == neighbor_count_at(cx, cy, d, qx, qy));
        assert(counts2[qy * 16 + qx] == neighbor_count_at(cx, cy, d, qx, qy));
    }
    assert(cells1 =~= cells2);
    assert(counts1 =~= counts2);
}

/// Chunk-independence: the raw classification of an absolute cell is the
/// same in whichever chunk's padded computation it appears, as long as the
/// density sampled for that absolute cell is the same — the cell's draw is
/// keyed by its absolute coordinate alone.
pub proof fn lemma_chunk_independence(
    cx1: int,
    cy1: int,
    d1: Seq<u64>,
    px1: int,
    py1: int,
    cx2: int,
    cy2: int,
    d2: Seq<u64>,
    px2: int,
    py2: int,
)
    requires
        abs_coord(cx1, px1) == abs_coord(cx2, px2),
        abs_coord(cy1, py1) == abs_coord(cy2, py2),
        d1[py1 * 18 + px1] == d2[py2 * 18 + px2],
    ensures
        pad_at(cx1, cy1, d1, px1, py1) == pad_at(cx2, cy2, d2, px2, py2),
{
}

/// The interior classification reported for a cell equals the raw
/// classification any other chunk's padded computation gives the same
/// absolute cell, whenever the reported cell was not upgraded (it is
/// upgraded exactly when its raw classification is Open and it has a Bomb
/// neighbor) and the same density was sampled for the cell both times.
pub proof fn lemma_interior_matches_border(
    cx1: int,
    cy1: int,
    d1: Seq<u64>,
    lx: int,
    ly: int,
    cx2: int,
    cy2: int,
    d2: Seq<u64>,
    px2: int,
    py2: int,
)
    requires
        abs_coord(cx1, lx + 1) == abs_coord(cx2, px2),
        abs_coord(cy1, ly + 1) == abs_coord(cy2, py2),
        d1[(ly + 1) * 18 + (lx + 1)] == d2[py2 * 18 + px2],
        !(raw_class_at(cx1, cy1, d1, lx, ly) == CellResult::Open && neighbor_count_at(
            cx1,
            cy1,
            d1,
            lx,
            ly,
        ) > 0),
    ensures
        class_at(cx1, cy1, d1, lx, ly) == pad_at(cx2, cy2, d2, px2, py2),
{
    lemma_chunk_independence(cx1, cy1, d1, lx + 1, ly + 1, cx2, cy2, d2, px2, py2);
}

/// The Open invariant: a reported Open cell has a reported neighbor count of
/// zero.
pub proof fn lemma_open_invariant(cx: int, cy: int, d: Seq<u64>, lx: int, ly: int)
    ensures
        class_at(cx, cy, d, lx, ly) == CellResult::Open ==> neighbor_count_at(cx, cy, d, lx, ly)
            == 0,
{
    reveal(neighbor_count_at);
}

/// Neighbor-count consistency: the reported count is the number of Bomb
/// cells among the eight absolute neighbors of the cell, each classified
/// directly from its own absolute coordinate and the density sampled for it
/// — the padded square is only a layout, not a source of truth.
pub proof fn lemma_neighbor_count_consistency(cx: int, cy: int, d: Seq<u64>, lx: int, ly: int)
    ensures
        neighbor_count_at(cx, cy, d, lx, ly) == hazard_one(
            cell_spec(cx * 16 + lx - 1, cy * 16 + ly - 1, d[ly * 18 + lx]),
        ) + hazard_one(
            cell_spec(cx * 16 + lx, cy * 16 + ly - 1, d[ly * 18 + lx + 1]),
        ) + hazard_one(
            cell_spec(cx * 16 + lx + 1, cy * 16 + ly - 1, d[ly * 18 + lx + 2]),
        ) + hazard_one(
            cell_spec(cx * 16 + lx - 1, cy * 16 + ly, d[(ly + 1) * 18 + lx]),
        ) + hazard_one(
            cell_spec(cx * 16 + lx + 1, cy * 16 + ly, d[(ly + 1) * 18 + lx + 2]),
        ) + hazard_one(
            cell_spec(cx * 16 + lx - 1, cy * 16 + ly + 1, d[(ly + 2) * 18 + lx]),
        ) + hazard_one(
            cell_spec(cx * 16 + lx, cy * 16 + ly + 1, d[(ly + 2) * 18 + lx + 1]),
        ) + hazard_one(
            cell_spec(cx * 16 + lx + 1, cy * 16 + ly + 1, d[(ly + 2) * 18 + lx + 2]),
        ),
{
    reveal(neighbor_count_at);
}

} // verus!
