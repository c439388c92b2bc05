use vstd::prelude::*;

use crate::entity::Object;
use crate::grid::Game;
use crate::tile::Tile;

verus! {

/// An RGB color, in the form the rendering collaborator takes it.
#[derive(Clone, Copy, Debug, PartialEq, Eq, Structural)]
pub struct Color {
    pub r: u8,
    pub g: u8,
    pub b: u8,
}

/// The background color painted behind sight-blocking tiles.
pub open spec fn color_dark_wall() -> Color {
    Color { r: 0, g: 0, b: 100 }
}

/// The background color painted behind see-through tiles.
pub open spec fn color_dark_ground() -> Color {
    Color { r: 50, g: 50, b: 150 }
}

/// The wall background color of the palette.
pub fn dark_wall_color() -> (c: Color)
    ensures
        c == color_dark_wall(),
{
    Color { r: 0, g: 0, b: 100 }
}

/// The ground background color of the palette.
pub fn dark_ground_color() -> (c: Color)
    ensures
        c == color_dark_ground(),
{
    Color { r: 50, g: 50, b: 150 }
}

/// One cell of a composed frame: a glyph with its foreground color, over a
/// background color. The collaborator's blit decides how the two layers
/// composite on screen.
#[derive(Clone, Copy, Debug, PartialEq, Eq, Structural)]
pub struct Cell {
    pub glyph: char,
    pub fg: Color,
    pub bg: Color,
}

/// What every cell of a cleared frame holds: a space glyph, white
/// foreground, black background.
pub open spec fn blank_cell() -> Cell {
    Cell { glyph: ' ', fg: Color { r: 255, g: 255, b: 255 }, bg: Color { r: 0, g: 0, b: 0 } }
}

/// `cells` with the glyph and foreground color at `(x, y)` replaced; the
/// background there, and every other cell, are kept.
pub open spec fn with_glyph(
    cells: Seq<Seq<Cell>>,
    x: int,
    y: int,
    glyph: char,
    fg: Color,
) -> Seq<Seq<Cell>> {
    cells.update(x, cells[x].update(y, Cell { glyph: glyph, fg: fg, bg: cells[x][y].bg }))
}

/// `cells` with the background color at `(x, y)` replaced; the glyph and
/// foreground there, and every other cell, are kept.
pub open spec fn with_bg(cells: Seq<Seq<Cell>>, x: int, y: int, bg: Color) -> Seq<Seq<Cell>> {
    cells.update(x, cells[x].update(y, Cell { bg: bg, ..cells[x][y] }))
}

/// The glyph layer after drawing a sequence of objects over `cells` in
/// order: the last object standing on a cell decides its glyph and
/// foreground color; backgrounds are untouched.
pub open spec fn drawn(cells: Seq<Seq<Cell>>, objects: Seq<Object>) -> Seq<Seq<Cell>>
    decreases objects.len(),
{
    if objects.len() == 0 {
        cells
    } else {
        with_glyph(
            drawn(cells, objects.drop_last()),
            objects.last().x as int,
            objects.last().y as int,
            objects.last().glyph,
            objects.last().color,
        )
    }
}

/// Every cell's background after the full-grid background pass: wall-color
/// where the tile blocks sight, ground-color otherwise; glyphs and
/// foregrounds are kept.
pub open spec fn bg_painted(cells: Seq<Seq<Cell>>, map: Seq<Seq<Tile>>) -> Seq<Seq<Cell>> {
    Seq::new(
        cells.len(),
        |x: int|
            Seq::new(
                cells[x].len(),
                |y: int|
                    Cell {
                        bg: if map[x][y].block_sight {
                            color_dark_wall()
                        } else {
                            color_dark_ground()
                        },
                        ..cells[x][y]
                    },
            ),
    )
}

/// An explicit frame buffer: the drawable frame the scene composer fills
/// and the frame loop driver hands to the rendering collaborator. Indexed
/// `[x][y]` like the grid.
pub struct FrameBuffer {
    width: usize,
    height: usize,
    cells: Vec<Vec<Cell>>,
}

impl View for FrameBuffer {
    type V = Seq<Seq<Cell>>;

    closed spec fn view(&self) -> Seq<Seq<Cell>> {
        self.cells@.map_values(|col: Vec<Cell>| col@)
    }
}

impl FrameBuffer {
    /// The number of columns.
    pub closed spec fn spec_width(&self) -> int {
        self.width as int
    }

    /// The number of rows.
    pub closed spec fn spec_height(&self) -> int {
        self.height as int
    }

    /// Well-formedness: one column per x coordinate and every column holds
    /// the full height, so every cell of the frame is defined.
    pub open spec fn wf(&self) -> bool {
        &&& self@.len() == self.spec_width()
        &&& forall|x: int|
            0 <= x < self@.len() ==> (#[trigger] self@[x]).len() == self.spec_height()
    }

    /// The coordinate `(x, y)` addresses a cell of this frame.
    pub open spec fn in_bounds(&self, x: int, y: int) -> bool {
        0 <= x < self.spec_width() && 0 <= y < self.spec_height()
    }

    pub fn width(&self) -> (w: usize)
        ensures
            w == self.spec_width(),
    {
        self.width
    }

    pub fn height(&self) -> (h: usize)
        ensures
            h == self.spec_height(),
    {
        self.height
    }

    /// A cleared frame of the given size.
    #[verifier::loop_isolation(false)]
    pub fn new(width: usize, height: usize) -> (fb: FrameBuffer)
        ensures
            fb.wf(),
            fb.spec_width() == width,
            fb.spec_height() == height,
            forall|x: int, y: int|
                fb.in_bounds(x, y) ==> (#[trigger] fb@[x][y]) == blank_cell(),
    {
        let blank = Cell {
            glyph: ' ',
            fg: Color { r: 255, g: 255, b: 255 },
            bg: Color { r: 0, g: 0, b: 0 },
        };
        let mut cells: Vec<Vec<Cell>> = Vec::new();
        let mut x: usize = 0;
        while x < width
            invariant
                x <= width,
                cells@.len() == x,
                forall|i: int| 0 <= i < x ==> (#[trigger] cells@[i])@.len() == height,
                forall|i: int, j: int|
                    0 <= i < x && 0 <= j < height ==> (#[trigger] cells@[i]@[j]) == blank_cell(),
            decreases width - x,
        {
            let mut col: Vec<Cell> = Vec::new();
            let mut y: usize = 0;
            while y < height
                invariant
                    y <= height,
                    col@.len() == y,
                    forall|j: int| 0 <= j < y ==> (#[trigger] col@[j]) == blank_cell(),
                decreases height - y,
            {
                col.push(blank);
                y = y + 1;
            }
            cells.push(col);
            x = x + 1;
        }
        FrameBuffer { width, height, cells }
    }

    /// Reset every cell to the blank cell, keeping the frame's size.
    pub fn clear(&mut self)
        ensures
            final(self).wf(),
            final(self).spec_width() == old(self).spec_width(),
            final(self).spec_height() == old(self).spec_height(),
            forall|x: int, y: int|
                final(self).in_bounds(x, y) ==> (#[trigger] final(self)@[x][y]) == blank_cell(),
    {
        *self = FrameBuffer::new(self.width, self.height);
    }

    /// Replace one whole cell; every other cell is kept.
    pub fn set_cell(&mut self, x: usize, y: usize, cell: Cell)
        requires
            old(self).wf(),
            old(self).in_bounds(x as int, y as int),
        ensures
            final(self).wf(),
            final(self).spec_width() == old(self).spec_width(),
            final(self).spec_height() == old(self).spec_height(),
            final(self)@ == old(self)@.update(
                x as int,
                old(self)@[x as int].update(y as int, cell),
            ),
    {
        proof {
            assert(self@[x as int] == self.cells@[x as int]@);
        }
        self.cells[x][y] = cell;
        proof {
            assert(self@ =~~= old(self)@.update(
                x as int,
                old(self)@[x as int].update(y as int, cell),
            ));
        }
    }

    /// Mark a glyph with its foreground color at `(x, y)`; the background
    /// there is kept.
    pub fn put_char(&mut self, x: usize, y: usize, glyph: char, fg: Color)
        requires
            old(self).wf(),
            old(self).in_bounds(x as int, y as int),
        ensures
            final(self).wf(),
            final(self).spec_width() == old(self).spec_width(),
            final(self).spec_height() == old(self).spec_height(),
            final(self)@ == with_glyph(old(self)@, x as int, y as int, glyph, fg),
    {
        let bg = self.cell_at(x, y).bg;
        self.set_cell(x, y, Cell { glyph, fg, bg });
    }

    /// Paint the background color at `(x, y)`; the glyph and foreground
    /// there are kept.
    pub fn set_char_background(&mut self, x: usize, y: usize, bg: Color)
        requires
            old(self).wf(),
            old(self).in_bounds(x as int, y as int),
        ensures
            final(self).wf(),
            final(self).spec_width() == old(self).spec_width(),
            final(self).spec_height() == old(self).spec_height(),
            final(self)@ == with_bg(old(self)@, x as int, y as int, bg),
    {
        let c = self.cell_at(x, y);
        self.set_cell(x, y, Cell { glyph: c.glyph, fg: c.fg, bg });
    }

    /// Bounds-checked read access to one cell of the frame.
    pub fn cell_at(&self, x: usize, y: usize) -> (c: Cell)
        requires
            self.wf(),
            self.in_bounds(x as int, y as int),
        ensures
            c == self@[x as int][y as int],
    {
        proof {
            assert(self@[x as int] == self.cells@[x as int]@);
        }
        self.cells[x][y]
    }
}

/// Compose one frame: draw every object in order (each marks its glyph in
/// its own foreground color), then paint every cell's background from the
/// grid, wall-color where the tile blocks sight and ground-color where it
/// does not. The full grid is repainted every frame.
#[verifier::loop_isolation(false)]
pub fn render_all(con: &mut FrameBuffer, game: &Game, objects: &Vec<Object>)
    requires
        old(con).wf(),
        game.map.wf(),
        old(con).spec_width() == game.map.spec_width(),
        old(con).spec_height() == game.map.spec_height(),
        forall|i: int|
            0 <= i < objects@.len() ==> game.map.in_bounds(
                (#[trigger] objects@[i]).x as int,
                objects@[i].y as int,
            ),
    ensures
        final(con).wf(),
        final(con).spec_width() == old(con).spec_width(),
        final(con).spec_height() == old(con).spec_height(),
        final(con)@ == bg_painted(drawn(old(con)@, objects@), game.map@),
{
    let mut i: usize = 0;
    while i < objects.len()
        invariant
            con.wf(),
            con.spec_width() == old(con).spec_width(),
            con.spec_height() == old(con).spec_height(),
            i <= objects@.len(),
            con@ == drawn(old(con)@, objects@.take(i as int)),
        decreases objects@.len() - i,
    {
        let o = &objects[i];
        o.draw(con);
        proof {
            assert(objects@.take(i + 1 as int).drop_last() =~= objects@.take(i as int));
            assert(objects@.take(i + 1 as int).last() == objects@[i as int]);
        }
        i = i + 1;
    }
    proof {
        assert(objects@.take(objects@.len() as int) =~= objects@);
    }
    let ghost mid = con@;
    let width = game.map.width();
    let height = game.map.height();
    let mut y: usize = 0;
    while y < height
        invariant
            con.wf(),
            con.spec_width() == old(con).spec_width(),
            con.spec_height() == old(con).spec_height(),
            y <= height,
            forall|cx: int, cy: int|
                con.in_bounds(cx, cy) ==> (#[trigger] con@[cx][cy]) == (if cy < y {
                    Cell {
                        bg: if game.map@[cx][cy].block_sight {
                            color_dark_wall()
                        } else {
                            color_dark_ground()
                        },
                        ..mid[cx][cy]
                    }
                } else {
                    mid[cx][cy]
                }),
        decreases height - y,
    {
        let mut x: usize = 0;
        while x < width
            invariant
                con.wf(),
                con.spec_width() == old(con).spec_width(),
                con.spec_height() == old(con).spec_height(),
                y < height,
                x <= width,
                forall|cx: int, cy: int|
                    con.in_bounds(cx, cy) ==> (#[trigger] con@[cx][cy]) == (if cy < y || (cy == y
                        && cx < x) {
                        Cell {
                            bg: if game.map@[cx][cy].block_sight {
                                color_dark_wall()
                            } else {
                                color_dark_ground()
                            },
                            ..mid[cx][cy]
                        }
                    } else {
                        mid[cx][cy]
                    }),
            decreases width - x,
        {
            let wall = game.map.at(x, y).block_sight;
            if wall {
                con.set_char_background(x, y, dark_wall_color());
            } else {
                con.set_char_background(x, y, dark_ground_color());
            }
            x = x + 1;
        }
        y = y + 1;
    }
    proof {
        let bp = bg_painted(mid, game.map@);
        assert forall|cx: int| 0 <= cx < con@.len() implies con@[cx] == bp[cx] by {
            assert forall|cy: int| 0 <= cy < con@[cx].len() implies con@[cx][cy] == bp[cx][cy] by {
                assert(con.in_bounds(cx, cy));
            }
            assert(con@[cx] =~= bp[cx]);
        }
        assert(con@ =~= bp);
    }
}

} // verus!
