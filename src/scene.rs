//! The fixed scene: a grid of unit spheres above a checkerboard floor.
//!
//! The grid has `GRID_ROWS` rows of `GRID_COLS` bits each. A set bit at
//! (row, col) places a unit sphere centered at (col, 0, 13 - row).

use vstd::prelude::*;

verus! {

pub const GRID_ROWS: usize = 9;

pub const GRID_COLS: usize = 19;

/// Number of grid positions scanned: `GRID_ROWS * GRID_COLS`.
pub const GRID_CELLS: usize = 171;

/// The bit pattern of one grid row; bit `col` is the sphere at that column.
pub open spec fn row_bits(row: int) -> u32 {
    if row == 1 {
        0b0111001111001000100u32
    } else if row == 2 {
        0b1000101000101101100u32
    } else if row == 3 {
        0b1000101000101010100u32
    } else if row == 4 {
        0b1111101000101000100u32
    } else if row == 5 || row == 6 {
        0b1000101000101000100u32
    } else if row == 7 {
        0b1000101111001000100u32
    } else {
        0u32
    }
}

/// Whether a unit sphere stands at grid position (row, col).
pub open spec fn occupied(row: int, col: int) -> bool {
    &&& 0 <= row < GRID_ROWS
    &&& 0 <= col < GRID_COLS
    &&& row_bits(row) & (1u32 << (col as u32)) != 0
}

/// One occupied grid position.
#[derive(Clone, Copy, Debug, PartialEq, Eq, Structural)]
pub struct SphereCell {
    pub row: usize,
    pub col: usize,
}

/// The grid position visited at step `i` of the scan: columns in
/// increasing order, and within a column the rows in increasing order.
pub open spec fn scan_cell(i: int) -> SphereCell {
    SphereCell { row: (i % (GRID_ROWS as int)) as usize, col: (i / (GRID_ROWS as int)) as usize }
}

pub open spec fn is_occupied(c: SphereCell) -> bool {
    occupied(c.row as int, c.col as int)
}

/// The occupied positions among the first `n` steps of the scan, in scan order.
pub open spec fn scanned_spheres(n: int) -> Seq<SphereCell> {
    Seq::new(n as nat, |i: int| scan_cell(i)).filter(|c: SphereCell| is_occupied(c))
}

impl SphereCell {
    /// Center of the unit sphere at this position, as (x, y, z).
    pub open spec fn spec_center(self) -> (int, int, int) {
        (self.col as int, 0, 13 - self.row as int)
    }

    pub fn center(&self) -> (r: (i64, i64, i64))
        requires
            self.row < GRID_ROWS,
            self.col < GRID_COLS,
        ensures
            (r.0 as int, r.1 as int, r.2 as int) == self.spec_center(),
    {
        (self.col as i64, 0, 13 - self.row as i64)
    }
}

/// The bits of grid row `row`.
pub fn row_pattern(row: usize) -> (r: u32)
    ensures
        r == row_bits(row as int),
{
    if row == 1 {
        0b0111001111001000100u32
    } else if row == 2 {
        0b1000101000101101100u32
    } else if row == 3 {
        0b1000101000101010100u32
    } else if row == 4 {
        0b1111101000101000100u32
    } else if row == 5 || row == 6 {
        0b1000101000101000100u32
    } else if row == 7 {
        0b1000101111001000100u32
    } else {
        0u32
    }
}

/// Whether a sphere stands at (row, col); false outside the grid.
pub fn has_sphere(row: usize, col: usize) -> (r: bool)
    ensures
        r == occupied(row as int, col as int),
{
    if row >= GRID_ROWS || col >= GRID_COLS {
        false
    } else {
        row_pattern(row) & (1u32 << (col as u32)) != 0
    }
}

/// Every occupied grid position, in scan order. Intersection tests walk
/// this list instead of decoding the grid bits for each ray.
pub fn sphere_cells() -> (r: Vec<SphereCell>)
    ensures
        r@ == scanned_spheres(GRID_CELLS as int),
{
    let mut cells: Vec<SphereCell> = Vec::new();
    let mut i: usize = 0;
    while i < GRID_CELLS
        invariant
            i <= GRID_CELLS,
            cells@ == scanned_spheres(i as int),
        decreases GRID_CELLS - i,
    {
        let c = SphereCell { row: i % GRID_ROWS, col: i / GRID_ROWS };
        let hit = has_sphere(c.row, c.col);
        proof {
            let f = |j: int| scan_cell(j);
            let p = |c: SphereCell| is_occupied(c);
            let s = Seq::new((i + 1) as nat, f);
            assert(s.drop_last() =~= Seq::new(i as nat, f));
            assert(s.last() == c);
            reveal_with_fuel(Seq::filter, 1);
            assert(s.filter(p) == if p(c) {
                Seq::new(i as nat, f).filter(p).push(c)
            } else {
                Seq::new(i as nat, f).filter(p)
            });
        }
        if hit {
            cells.push(c);
        }
        i = i + 1;
    }
    cells
}

/// Base color of a floor tile, chosen by the parity of the sum of the
/// ceilings of the (scaled) hit point's x and y: odd sums give the red
/// tile (3, 1, 1), even sums the white tile (3, 3, 3).
pub open spec fn tile_color(ceil_sum: int) -> (u8, u8, u8) {
    if ceil_sum % 2 == 1 {
        (3, 1, 1)
    } else {
        (3, 3, 3)
    }
}

pub fn floor_tile(ceil_sum: i64) -> (r: (u8, u8, u8))
    ensures
        r == tile_color(ceil_sum as int),
{
    if ceil_sum % 2 != 0 {
        (3, 1, 1)
    } else {
        (3, 3, 3)
    }
}

} // verus!
