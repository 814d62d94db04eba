//! Board cells and the scene coordinates of their centres.

use vstd::prelude::*;

verus! {

/// Number of columns on the board.
pub const GRID_COLS: usize = 8;

/// Number of rows on the board.
pub const GRID_ROWS: usize = 6;

/// Side of one cell in scene units.
pub const CELL_SIZE: usize = 100;

/// Offset from a cell's corner to its centre in scene units.
pub const CELL_CENTRE: usize = 50;

/// A cell of the board, by column and row.
#[derive(Clone, Copy, Debug, PartialEq, Eq, Structural)]
pub struct GridPos {
    pub col: usize,
    pub row: usize,
}

/// A point of the scene, in whole scene units.
#[derive(Clone, Copy, Debug, PartialEq, Eq, Structural)]
pub struct ScenePos {
    pub x: usize,
    pub y: usize,
}

/// Whether a column and a row lie on the board.
pub open spec fn in_bounds(col: int, row: int) -> bool {
    0 <= col < GRID_COLS as int && 0 <= row < GRID_ROWS as int
}

/// Scene coordinate of the centre of cell `i` along one axis.
pub open spec fn centre_of(i: int) -> int {
    i * CELL_SIZE as int + CELL_CENTRE as int
}

/// Cell index along one axis of a scene coordinate at or after the first centre.
pub open spec fn cell_of(v: int) -> int {
    (v - CELL_CENTRE as int) / CELL_SIZE as int
}

impl GridPos {
    /// The cell lies on the board.
    pub open spec fn wf(&self) -> bool {
        in_bounds(self.col as int, self.row as int)
    }

    /// The centre of the cell in the scene.
    pub open spec fn scene_spec(&self) -> ScenePos {
        ScenePos { x: centre_of(self.col as int) as usize, y: centre_of(self.row as int) as usize }
    }

    /// Makes a cell from a column and a row.
    pub fn new(col: usize, row: usize) -> (r: GridPos)
        ensures
            r.col == col,
            r.row == row,
    {
        GridPos { col, row }
    }
}

impl ScenePos {
    /// The cell whose centre is at or before this point on both axes.
    pub open spec fn grid_spec(&self) -> GridPos {
        GridPos { col: cell_of(self.x as int) as usize, row: cell_of(self.y as int) as usize }
    }
}

/// Scene coordinate of the centre of cell `i` along one axis.
pub fn centre_coord(i: usize) -> (r: usize)
    requires
        centre_of(i as int) <= usize::MAX,
    ensures
        r == centre_of(i as int),
{
    i * CELL_SIZE + CELL_CENTRE
}

/// Maps a cell to the scene position of its centre.
pub fn grid_to_scene(p: GridPos) -> (r: ScenePos)
    requires
        centre_of(p.col as int) <= usize::MAX,
        centre_of(p.row as int) <= usize::MAX,
    ensures
        r == p.scene_spec(),
        r.x == centre_of(p.col as int),
        r.y == centre_of(p.row as int),
{
    ScenePos { x: centre_coord(p.col), y: centre_coord(p.row) }
}

/// Maps a scene position back to a cell. Points before the first cell centre
/// on either axis have no cell and are not accepted.
pub fn scene_to_grid(s: ScenePos) -> (r: GridPos)
    requires
        s.x >= CELL_CENTRE,
        s.y >= CELL_CENTRE,
    ensures
        r == s.grid_spec(),
        r.col == cell_of(s.x as int),
        r.row == cell_of(s.y as int),
{
    GridPos { col: (s.x - CELL_CENTRE) / CELL_SIZE, row: (s.y - CELL_CENTRE) / CELL_SIZE }
}

/// Going from a board cell to its scene centre and back gives the same cell.
pub proof fn lemma_scene_round_trip(p: GridPos)
    requires
        p.wf(),
    ensures
        centre_of(p.col as int) <= usize::MAX,
        centre_of(p.row as int) <= usize::MAX,
        p.scene_spec().x >= CELL_CENTRE,
        p.scene_spec().y >= CELL_CENTRE,
        p.scene_spec().grid_spec() == p,
{
    let c = p.col as int;
    let r = p.row as int;
    assert((c * 100 + 50 - 50) / 100 == c) by (nonlinear_arith)
        requires 0 <= c < 8;
    assert((r * 100 + 50 - 50) / 100 == r) by (nonlinear_arith)
        requires 0 <= r < 6;
}

} // verus!
