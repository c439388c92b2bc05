use vstd::prelude::*;

use crate::tile::Tile;

verus! {

/// The dungeon map: a fixed-size rectangular array of tiles, indexed
/// column-first as `[x][y]` with `x` in `[0, width)` and `y` in `[0, height)`.
/// The size is fixed for the lifetime of a game session; every cell is
/// always defined.
pub struct Grid {
    width: usize,
    height: usize,
    tiles: Vec<Vec<Tile>>,
}

impl View for Grid {
    type V = Seq<Seq<Tile>>;

    closed spec fn view(&self) -> Seq<Seq<Tile>> {
        self.tiles@.map_values(|col: Vec<Tile>| col@)
    }
}

impl Grid {
    /// The number of columns.
    pub closed spec fn spec_width(&self) -> int {
        self.width as int
    }

    /// The number of rows.
    pub closed spec fn spec_height(&self) -> int {
        self.height as int
    }

    /// Well-formedness: one column per x coordinate, every column holds the
    /// full height (no cell is missing), and the size fits the `i32`
    /// coordinate space that entities address the grid with.
    pub open spec fn wf(&self) -> bool {
        &&& self@.len() == self.spec_width()
        &&& forall|x: int|
            0 <= x < self@.len() ==> (#[trigger] self@[x]).len() == self.spec_height()
        &&& self.spec_width() <= i32::MAX
        &&& self.spec_height() <= i32::MAX
    }

    /// The coordinate `(x, y)` addresses a cell of this grid.
    pub open spec fn in_bounds(&self, x: int, y: int) -> bool {
        0 <= x < self.spec_width() && 0 <= y < self.spec_height()
    }

    pub fn width(&self) -> (w: usize)
        ensures
            w == self.spec_width(),
    {
        self.width
    }

    pub fn height(&self) -> (h: usize)
        ensures
            h == self.spec_height(),
    {
        self.height
    }

    /// A grid of the given size with every cell set to `fill`.
    pub fn new(width: usize, height: usize, fill: Tile) -> (g: Grid)
        requires
            width <= i32::MAX,
            height <= i32::MAX,
        ensures
            g.wf(),
            g.spec_width() == width,
            g.spec_height() == height,
            forall|x: int, y: int| g.in_bounds(x, y) ==> (#[trigger] g@[x][y]) == fill,
    {
        let mut tiles: Vec<Vec<Tile>> = Vec::new();
        let mut x: usize = 0;
        while x < width
            invariant
                x <= width,
                tiles@.len() == x,
                forall|i: int|
                    0 <= i < x ==> (#[trigger] tiles@[i])@.len() == height,
                forall|i: int, j: int|
                    0 <= i < x && 0 <= j < height ==> (#[trigger] tiles@[i]@[j]) == fill,
            decreases width - x,
        {
            let mut col: Vec<Tile> = Vec::new();
            let mut y: usize = 0;
            while y < height
                invariant
                    y <= height,
                    col@.len() == y,
                    forall|j: int| 0 <= j < y ==> (#[trigger] col@[j]) == fill,
                decreases height - y,
            {
                col.push(fill);
                y = y + 1;
            }
            tiles.push(col);
            x = x + 1;
        }
        Grid { width, height, tiles }
    }

    /// Bounds-checked read access to one cell.
    pub fn at(&self, x: usize, y: usize) -> (t: Tile)
        requires
            self.wf(),
            self.in_bounds(x as int, y as int),
        ensures
            t == self@[x as int][y as int],
    {
        proof {
            assert(self@[x as int] == self.tiles@[x as int]@);
        }
        self.tiles[x][y]
    }

    /// Bounds-checked replacement of one cell; every other cell is kept.
    pub fn set_tile(&mut self, x: usize, y: usize, t: Tile)
        requires
            old(self).wf(),
            old(self).in_bounds(x as int, y as int),
        ensures
            final(self).wf(),
            final(self).spec_width() == old(self).spec_width(),
            final(self).spec_height() == old(self).spec_height(),
            final(self)@ == old(self)@.update(
                x as int,
                old(self)@[x as int].update(y as int, t),
            ),
    {
        proof {
            assert(self@[x as int] == self.tiles@[x as int]@);
        }
        self.tiles[x][y] = t;
        proof {
            assert(self@ =~~= old(self)@.update(
                x as int,
                old(self)@[x as int].update(y as int, t),
            ));
        }
    }
}

/// The session state this core owns: the generated grid. It is built once
/// at session start and only read afterwards, by movement checks and by the
/// scene composer.
pub struct Game {
    pub map: Grid,
}

} // verus!
