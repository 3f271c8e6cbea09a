//! Rendering: from the virtual machine's bit-per-cell frame buffer to the
//! exact set of logical coordinates the display must mark lit.
//!
//! The frame buffer is the machine's own fixed 64x32 grid, read-only
//! here. Of each cell only the least-significant bit counts as lit or
//! unlit; whatever else the machine stores in a cell is ignored.

use vstd::prelude::*;

verus! {

broadcast use vstd::seq_lib::lemma_seq_contains_after_push;

/// Logical width of the frame buffer, in cells.
pub const FRAME_WIDTH: usize = 64;

/// Logical height of the frame buffer, in cells.
pub const FRAME_HEIGHT: usize = 32;

/// A frame cell is lit exactly when its least-significant bit is set.
pub open spec fn cell_lit(cell: u8) -> bool {
    cell & 1 != 0
}

/// Row-major position of a coordinate, used to state that lit points come
/// out in scan order.
pub open spec fn point_key(p: (usize, usize)) -> int {
    p.1 * 64 + p.0
}

/// Collects, in row-major scan order, every coordinate whose frame cell
/// has its least-significant bit set.
///
/// A lit cell at `(x, y)` yields exactly one point `(x, y)` in the result
/// (the result has no duplicates); an unlit cell yields none.
pub fn lit_points(frame: &[[u8; FRAME_WIDTH]; FRAME_HEIGHT]) -> (pts: Vec<(usize, usize)>)
    ensures
        forall|x: int, y: int|
            0 <= x < 64 && 0 <= y < 32 ==> (pts@.contains((x as usize, y as usize)) <==> cell_lit(
                frame@[y]@[x],
            )),
        forall|i: int| 0 <= i < pts@.len() ==> (#[trigger] pts@[i]).0 < 64 && pts@[i].1 < 32,
        forall|i: int, j: int|
            0 <= i < j < pts@.len() ==> point_key(pts@[i]) < point_key(pts@[j]),
        pts@.no_duplicates(),
{
    let mut pts: Vec<(usize, usize)> = Vec::new();
    let mut y: usize = 0;
    while y < 32
        invariant
            y <= 32,
            forall|a: int, b: int|
                0 <= a < 64 && 0 <= b < y ==> (pts@.contains((a as usize, b as usize))
                    <==> cell_lit(frame@[b]@[a])),
            forall|i: int| 0 <= i < pts@.len() ==> (#[trigger] pts@[i]).0 < 64 && pts@[i].1 < y,
            forall|i: int, j: int|
                0 <= i < j < pts@.len() ==> point_key(pts@[i]) < point_key(pts@[j]),
        decreases 32 - y,
    {
        let mut x: usize = 0;
        while x < 64
            invariant
                y < 32,
                x <= 64,
                forall|a: int, b: int|
                    0 <= a < 64 && 0 <= b < y ==> (pts@.contains((a as usize, b as usize))
                        <==> cell_lit(frame@[b]@[a])),
                forall|a: int|
                    0 <= a < x ==> (pts@.contains((a as usize, y)) <==> cell_lit(
                        frame@[y as int]@[a],
                    )),
                forall|i: int|
                    0 <= i < pts@.len() ==> (#[trigger] pts@[i]).0 < 64 && (pts@[i].1 < y || (
                    pts@[i].1 == y && pts@[i].0 < x)),
                forall|i: int, j: int|
                    0 <= i < j < pts@.len() ==> point_key(pts@[i]) < point_key(pts@[j]),
            decreases 64 - x,
        {
            if frame[y][x] & 1 != 0 {
                let ghost prev = pts@;
                proof {
                    assert forall|i: int| 0 <= i < pts@.len() implies point_key(pts@[i])
                        < point_key((x, y)) by {
                        assert((#[trigger] pts@[i]).0 < 64);
                    }
                }
                pts.push((x, y));
                proof {
                    assert(pts@ == prev.push((x, y)));
                    assert forall|a: int| 0 <= a < x + 1 implies (pts@.contains((a as usize, y))
                        <==> cell_lit(frame@[y as int]@[a])) by {
                        vstd::seq_lib::lemma_seq_contains_after_push(
                            prev,
                            (x, y),
                            (a as usize, y),
                        );
                        if a == x {
                            assert((a as usize, y) == (x, y));
                        }
                    }
                    assert forall|a: int, b: int| 0 <= a < 64 && 0 <= b < y implies (pts@.contains(
                        (a as usize, b as usize),
                    ) <==> cell_lit(frame@[b]@[a])) by {
                        vstd::seq_lib::lemma_seq_contains_after_push(
                            prev,
                            (x, y),
                            (a as usize, b as usize),
                        );
                    }
                }
            } else {
                proof {
                    assert forall|i: int| 0 <= i < pts@.len() implies pts@[i] != (x, y) by {
                        assert((#[trigger] pts@[i]).0 < 64);
                    }
                    assert(!pts@.contains((x, y)));
                }
            }
            x = x + 1;
        }
        y = y + 1;
    }
    proof {
        assert forall|i: int, j: int|
            0 <= i < pts@.len() && 0 <= j < pts@.len() && i != j implies pts@[i] != pts@[j] by {
            if i < j {
                assert(point_key(pts@[i]) < point_key(pts@[j]));
            } else {
                assert(point_key(pts@[j]) < point_key(pts@[i]));
            }
        }
    }
    pts
}

} // verus!
