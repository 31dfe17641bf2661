use vstd::prelude::*;

verus! {

/// Number of fixed-point units in one tile.
pub const SCALE: i64 = 100;

/// What a tile of the world holds.
#[derive(Clone, Copy, Debug, PartialEq, Eq, Structural)]
pub enum CellKind {
    Empty,
    Solid,
}

/// A grid of tiles, stored as rows. A row may be shorter than `width`: the
/// tiles past its end are empty.
pub struct TileWorld {
    pub width: usize,
    pub height: usize,
    pub rows: Vec<Vec<CellKind>>,
}

impl TileWorld {
    /// The rows as mathematical sequences.
    pub open spec fn grid(&self) -> Seq<Seq<CellKind>> {
        self.rows@.map_values(|r: Vec<CellKind>| r@)
    }

    /// Dimensions are positive, there are `height` rows and none is longer
    /// than `width`.
    pub open spec fn wf(&self) -> bool {
        &&& 0 < self.width
        &&& 0 < self.height
        &&& self.width <= i32::MAX
        &&& self.height <= i32::MAX
        &&& self.rows@.len() == self.height
        &&& forall|y: int| 0 <= y < self.height ==> #[trigger] self.rows@[y]@.len() <= self.width
    }

    /// Whether tile `(x, y)` is solid; anything outside the grid is empty.
    pub open spec fn solid(&self, x: int, y: int) -> bool {
        &&& 0 <= y < self.rows@.len()
        &&& 0 <= x < self.rows@[y]@.len()
        &&& self.rows@[y]@[x] == CellKind::Solid
    }

    /// Whether the tile holding the fixed-point point `(cx, cy)` is solid.
    pub open spec fn solid_at(&self, cx: int, cy: int) -> bool {
        cx >= 0 && cy >= 0 && self.solid(cx / SCALE as int, cy / SCALE as int)
    }

    /// Builds a world from its rows.
    pub fn new(width: usize, height: usize, rows: Vec<Vec<CellKind>>) -> (r: Option<TileWorld>)
        ensures
            r.is_some() <==> (0 < width <= i32::MAX && 0 < height <= i32::MAX
                && rows@.len() == height
                && forall|y: int| 0 <= y < height ==> #[trigger] rows@[y]@.len() <= width),
            r matches Some(w) ==> w.wf() && w.width == width && w.height == height
                && w.rows@ == rows@,
    {
        if width == 0 || height == 0 || width > i32::MAX as usize || height > i32::MAX as usize
            || rows.len() != height {
            return None;
        }
        let mut y: usize = 0;
        while y < rows.len()
            invariant
                0 <= y <= rows@.len(),
                forall|j: int| 0 <= j < y ==> #[trigger] rows@[j]@.len() <= width,
            decreases rows@.len() - y,
        {
            if rows[y].len() > width {
                return None;
            }
            y += 1;
        }
        Some(TileWorld { width, height, rows })
    }

    /// Tile `(x, y)`, empty when outside the grid.
    pub fn cell(&self, x: usize, y: usize) -> (r: CellKind)
        ensures
            (r == CellKind::Solid) == self.solid(x as int, y as int),
    {
        if y < self.rows.len() && x < self.rows[y].len() {
            self.rows[y][x]
        } else {
            CellKind::Empty
        }
    }

    /// Whether the tile holding the fixed-point point `(cx, cy)` is solid.
    pub fn is_solid_at(&self, cx: i64, cy: i64) -> (r: bool)
        requires
            self.wf(),
        ensures
            r == self.solid_at(cx as int, cy as int),
    {
        if cx < 0 || cy < 0 {
            return false;
        }
        let xi = cx / SCALE;
        let yi = cy / SCALE;
        if xi >= self.width as i64 || yi >= self.height as i64 {
            return false;
        }
        let x = xi as usize;
        let y = yi as usize;
        match self.cell(x, y) {
            CellKind::Solid => true,
            CellKind::Empty => false,
        }
    }
}

} // verus!
