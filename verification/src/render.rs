//! The human-readable chunk dump: one ASCII glyph per cell — the digit of
//! the neighbor count for a Normal cell, `!` for a Bomb, `.` for an Open
//! cell — sixteen rows of sixteen glyphs, each row ended by a newline. It
//! is a debugging aid for manual inspection, not a stable interface.

use crate::cell::CellResult;
use vstd::arithmetic::div_mod::lemma_fundamental_div_mod_converse;
use vstd::prelude::*;

verus! {

/// The glyph of one cell: `!` for a Bomb, `.` for an Open cell, the decimal
/// digit of the neighbor count (at most 8) for a Normal cell.
pub open spec fn glyph(c: CellResult, n: u8) -> u8 {
    match c {
        CellResult::Bomb => 33,
        CellResult::Open => 46,
        CellResult::Normal => (48 + n) as u8,
    }
}

/// The whole rendered dump: sixteen 17-byte lines, sixteen glyphs and a
/// newline each, rows in the same row-major order as the chunk arrays.
pub open spec fn render_spec(cells: Seq<CellResult>, counts: Seq<u8>) -> Seq<u8> {
    Seq::new(
        272,
        |j: int|
            if j % 17 == 16 {
                10u8
            } else {
                glyph(cells[(j / 17) * 16 + j % 17], counts[(j / 17) * 16 + j % 17])
            },
    )
}

/// Render a chunk's classifications and neighbor counts as the textual
/// grid.
pub fn dump_chunk(cells: &Vec<CellResult>, counts: &Vec<u8>) -> (r: Vec<u8>)
    requires
        cells@.len() == 256,
        counts@.len() == 256,
        forall|i: int| 0 <= i < 256 ==> #[trigger] counts@[i] <= 8,
    ensures
        r@ == render_spec(cells@, counts@),
{
    let mut out: Vec<u8> = Vec::new();
    let mut qy: usize = 0;
    while qy < 16
        invariant
            qy <= 16,
            out@.len() == qy * 17,
            cells@.len() == 256,
            counts@.len() == 256,
            forall|i: int| 0 <= i < 256 ==> #[trigger] counts@[i] <= 8,
            forall|j: int| 0 <= j < qy * 17 ==> out@[j] == render_spec(cells@, counts@)[j],
        decreases 16 - qy,
    {
        let mut qx: usize = 0;
        while qx < 16
            invariant
                qx <= 16,
                qy < 16,
                out@.len() == qy * 17 + qx,
                cells@.len() == 256,
                counts@.len() == 256,
                forall|i: int| 0 <= i < 256 ==> #[trigger] counts@[i] <= 8,
                forall|j: int| 0 <= j < qy * 17 + qx ==> out@[j] == render_spec(cells@, counts@)[j],
            decreases 16 - qx,
        {
            let idx: usize = qy * 16 + qx;
            let n: u8 = counts[idx];
            let b: u8 = match cells[idx] {
                CellResult::Bomb => 33,
                CellResult::Open => 46,
                CellResult::Normal => 48 + n,
            };
            out.push(b);
            proof {
                lemma_fundamental_div_mod_converse(
                    (qy * 17 + qx) as int,
                    17,
                    qy as int,
                    qx as int,
                );
                assert(out@[qy * 17 + qx] == render_spec(cells@, counts@)[qy * 17 + qx]);
            }
            qx = qx + 1;
        }
        out.push(10);
        proof {
            lemma_fundamental_div_mod_converse((qy * 17 + 16) as int, 17, qy as int, 16);
            assert(out@[qy * 17 + 16] == render_spec(cells@, counts@)[qy * 17 + 16]);
        }
        qy = qy + 1;
    }
    proof {
        assert(out@ =~= render_spec(cells@, counts@));
    }
    out
}

} // verus!
