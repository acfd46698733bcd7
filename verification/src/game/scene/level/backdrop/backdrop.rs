//! Backdrop segments
use vstd::prelude::*;

use crate::game::geometry::Vec2;

verus! {

/// A segment of a backdrop, by its coordinate in the grid of segments
pub struct BackdropSegment {
    pub segment_coordinate: Vec2<i32>,
}

/// The grid coordinates of the segments of a backdrop `columns` wide and `rows` high, column by
/// column: the segment at `i` lies in column `i / rows` and row `i % rows`
pub fn segment_coordinates(columns: u32, rows: u32) -> (coordinates: Vec<Vec2<u32>>)
    ensures
        coordinates@.len() == columns * rows,
        forall|i: int|
            0 <= i < coordinates@.len() ==> #[trigger] coordinates@[i] == (Vec2 {
                x: (i / rows as int) as u32,
                y: (i % rows as int) as u32,
            }),
{
    let mut coordinates: Vec<Vec2<u32>> = Vec::new();
    let mut x: u32 = 0;
    while x < columns
        invariant
            x <= columns,
            coordinates@.len() == x * rows,
            forall|i: int|
                0 <= i < coordinates@.len() ==> #[trigger] coordinates@[i] == (Vec2 {
                    x: (i / rows as int) as u32,
                    y: (i % rows as int) as u32,
                }),
        decreases columns - x,
    {
        let mut y: u32 = 0;
        while y < rows
            invariant
                x < columns,
                y <= rows,
                coordinates@.len() == x * rows + y,
                forall|i: int|
                    0 <= i < coordinates@.len() ==> #[trigger] coordinates@[i] == (Vec2 {
                        x: (i / rows as int) as u32,
                        y: (i % rows as int) as u32,
                    }),
            decreases rows - y,
        {
            let ghost i = coordinates@.len() as int;
            coordinates.push(Vec2::new(x, y));
            assert(i / rows as int == x && i % rows as int == y) by (nonlinear_arith)
                requires
                    i == x * rows + y,
                    0 <= y < rows,
                    0 <= x,
            {
                vstd::arithmetic::div_mod::lemma_fundamental_div_mod_converse(i, rows as int, x as int, y as int);
            }
            y = y + 1;
        }
        assert(x * rows + rows == (x + 1) * rows) by (nonlinear_arith);
        x = x + 1;
    }
    coordinates
}

} // verus!
