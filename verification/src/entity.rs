use vstd::prelude::*;

use crate::grid::{Game, Grid};
use crate::scene::{with_glyph, Color, FrameBuffer};

verus! {

/// A positioned, drawable actor: player or non-player. It owns its own
/// position; the grid does not track which entities stand on which cell.
#[derive(Clone, Copy, Debug, PartialEq, Eq, Structural)]
pub struct Object {
    pub x: i32,
    pub y: i32,
    pub glyph: char,
    pub color: Color,
}

/// Where a single collision-gated step from `o` by `(dx, dy)` ends: on an
/// in-bounds, unblocked destination the entity stands there; anywhere else
/// it stays exactly where it was.
pub open spec fn move_step(o: Object, dx: int, dy: int, g: Grid) -> Object {
    if g.in_bounds(o.x + dx, o.y + dy) && !g@[o.x + dx][o.y + dy].blocked {
        Object { x: (o.x + dx) as i32, y: (o.y + dy) as i32, ..o }
    } else {
        o
    }
}

/// How a bounds-checked movement attempt ended.
#[derive(Clone, Copy, Debug, PartialEq, Eq, Structural)]
pub enum MoveOutcome {
    /// The destination was in bounds and passable; the entity moved.
    Moved,
    /// The destination tile blocks movement; the entity stayed.
    Blocked,
    /// The destination lies outside the grid; the entity stayed.
    OutOfBounds,
}

impl Object {
    /// An actor at `(x, y)` shown as `glyph` in `color`.
    pub fn new(x: i32, y: i32, glyph: char, color: Color) -> (o: Object)
        ensures
            o == (Object { x, y, glyph, color }),
    {
        Object { x, y, glyph, color }
    }

    /// Attempt to translate by `(dx, dy)`. If the destination tile blocks
    /// movement the move is silently rejected: the position is unchanged
    /// and nothing else signals the failure. Otherwise both coordinates are
    /// updated together. Returns whether the entity moved. The destination
    /// must be in bounds; `try_move_by` checks that instead.
    pub fn move_by(&mut self, dx: i32, dy: i32, game: &Game) -> (moved: bool)
        requires
            game.map.wf(),
            game.map.in_bounds(old(self).x + dx, old(self).y + dy),
        ensures
            *final(self) == move_step(*old(self), dx as int, dy as int, game.map),
            moved == !game.map@[old(self).x + dx][old(self).y + dy].blocked,
            moved ==> final(self).x == old(self).x + dx && final(self).y == old(self).y + dy,
            !moved ==> *final(self) == *old(self),
            final(self).glyph == old(self).glyph,
            final(self).color == old(self).color,
    {
        let nx = self.x + dx;
        let ny = self.y + dy;
        if !game.map.at(nx as usize, ny as usize).blocked {
            self.x = nx;
            self.y = ny;
            true
        } else {
            false
        }
    }

    /// Bounds-checked movement: like `move_by`, but an out-of-bounds
    /// destination is reported as such instead of being a caller error, and
    /// leaves the position unchanged.
    pub fn try_move_by(&mut self, dx: i32, dy: i32, game: &Game) -> (outcome: MoveOutcome)
        requires
            game.map.wf(),
        ensures
            *final(self) == move_step(*old(self), dx as int, dy as int, game.map),
            outcome == (if !game.map.in_bounds(old(self).x + dx, old(self).y + dy) {
                MoveOutcome::OutOfBounds
            } else if game.map@[old(self).x + dx][old(self).y + dy].blocked {
                MoveOutcome::Blocked
            } else {
                MoveOutcome::Moved
            }),
            final(self).glyph == old(self).glyph,
            final(self).color == old(self).color,
    {
        let nx: i64 = self.x as i64 + dx as i64;
        let ny: i64 = self.y as i64 + dy as i64;
        let w: i64 = game.map.width() as i64;
        let h: i64 = game.map.height() as i64;
        if nx < 0 || nx >= w || ny < 0 || ny >= h {
            MoveOutcome::OutOfBounds
        } else if game.map.at(nx as usize, ny as usize).blocked {
            MoveOutcome::Blocked
        } else {
            self.x = nx as i32;
            self.y = ny as i32;
            MoveOutcome::Moved
        }
    }

    /// Mark this object's glyph, in its own foreground color, at its
    /// position in the frame buffer; the background there is kept.
    pub fn draw(&self, con: &mut FrameBuffer)
        requires
            old(con).wf(),
            old(con).in_bounds(self.x as int, self.y as int),
        ensures
            final(con).wf(),
            final(con).spec_width() == old(con).spec_width(),
            final(con).spec_height() == old(con).spec_height(),
            final(con)@ == with_glyph(
                old(con)@,
                self.x as int,
                self.y as int,
                self.glyph,
                self.color,
            ),
    {
        con.put_char(self.x as usize, self.y as usize, self.glyph, self.color);
    }
}

} // verus!
