use vstd::prelude::*;

use crate::grid::Grid;
use crate::tile::{empty_tile, wall_tile, Tile};

verus! {

/// A room descriptor: left/top inclusive, right/bottom exclusive bounds.
/// A non-degenerate room has `x1 < x2` and `y1 < y2`; it is used only
/// during generation and not retained afterwards.
#[derive(Clone, Copy, Debug, PartialEq, Eq, Structural)]
pub struct Rect {
    pub x1: i32,
    pub y1: i32,
    pub x2: i32,
    pub y2: i32,
}

impl Rect {
    /// A room from an origin plus width and height.
    pub fn new(x: i32, y: i32, w: i32, h: i32) -> (r: Rect)
        requires
            i32::MIN <= x + w <= i32::MAX,
            i32::MIN <= y + h <= i32::MAX,
        ensures
            r.x1 == x,
            r.y1 == y,
            r.x2 == x + w,
            r.y2 == y + h,
    {
        Rect { x1: x, y1: y, x2: x + w, y2: y + h }
    }
}

/// The cell `(x, y)` lies strictly inside `r`: the boundary row and column
/// are excluded, so a one-cell wall margin always remains around a room.
pub open spec fn in_interior(r: Rect, x: int, y: int) -> bool {
    r.x1 < x < r.x2 && r.y1 < y < r.y2
}

/// The cell `(cx, cy)` lies on the horizontal tunnel at row `y` spanning the
/// inclusive range between `x1` and `x2`, in either order.
pub open spec fn on_h_span(x1: int, x2: int, y: int, cx: int, cy: int) -> bool {
    cy == y && vstd::math::min(x1, x2) <= cx <= vstd::math::max(x1, x2)
}

/// The cell `(cx, cy)` lies on the vertical tunnel at column `x` spanning the
/// inclusive range between `y1` and `y2`, in either order.
pub open spec fn on_v_span(y1: int, y2: int, x: int, cx: int, cy: int) -> bool {
    cx == x && vstd::math::min(y1, y2) <= cy <= vstd::math::max(y1, y2)
}

/// Carving a horizontal tunnel is order-independent: the cells covered by
/// endpoints `(x1, x2)` are exactly the cells covered by `(x2, x1)`.
pub proof fn lemma_h_span_order_independent(x1: int, x2: int, y: int, cx: int, cy: int)
    ensures
        on_h_span(x1, x2, y, cx, cy) == on_h_span(x2, x1, y, cx, cy),
{
}

/// Carving a vertical tunnel is order-independent in the same way.
pub proof fn lemma_v_span_order_independent(y1: int, y2: int, x: int, cx: int, cy: int)
    ensures
        on_v_span(y1, y2, x, cx, cy) == on_v_span(y2, y1, x, cx, cy),
{
}

/// Make every cell strictly inside `room` passable; every other cell,
/// including the room's boundary ring, is left as it was.
#[verifier::loop_isolation(false)]
pub fn create_room(room: Rect, g: &mut Grid)
    requires
        old(g).wf(),
        0 <= room.x1 < room.x2 <= old(g).spec_width(),
        0 <= room.y1 < room.y2 <= old(g).spec_height(),
    ensures
        final(g).wf(),
        final(g).spec_width() == old(g).spec_width(),
        final(g).spec_height() == old(g).spec_height(),
        forall|cx: int, cy: int|
            final(g).in_bounds(cx, cy) ==> (#[trigger] final(g)@[cx][cy]) == (if in_interior(
                room,
                cx,
                cy,
            ) {
                empty_tile()
            } else {
                old(g)@[cx][cy]
            }),
{
    let mut x: i32 = room.x1 + 1;
    while x < room.x2
        invariant
            g.wf(),
            g.spec_width() == old(g).spec_width(),
            g.spec_height() == old(g).spec_height(),
            0 <= room.x1 < room.x2 <= g.spec_width(),
            0 <= room.y1 < room.y2 <= g.spec_height(),
            room.x1 + 1 <= x <= room.x2,
            forall|cx: int, cy: int|
                g.in_bounds(cx, cy) ==> (#[trigger] g@[cx][cy]) == (if room.x1 < cx < x && room.y1 < cy
                    < room.y2 {
                    empty_tile()
                } else {
                    old(g)@[cx][cy]
                }),
        decreases room.x2 - x,
    {
        let mut y: i32 = room.y1 + 1;
        while y < room.y2
            invariant
                g.wf(),
                g.spec_width() == old(g).spec_width(),
                g.spec_height() == old(g).spec_height(),
                0 <= room.x1 < room.x2 <= g.spec_width(),
                0 <= room.y1 < room.y2 <= g.spec_height(),
                room.x1 + 1 <= x < room.x2,
                room.y1 + 1 <= y <= room.y2,
                forall|cx: int, cy: int|
                    g.in_bounds(cx, cy) ==> (#[trigger] g@[cx][cy]) == (if (room.x1 < cx < x && room.y1 < cy
                        < room.y2) || (cx == x && room.y1 < cy < y) {
                        empty_tile()
                    } else {
                        old(g)@[cx][cy]
                    }),
            decreases room.y2 - y,
        {
            g.set_tile(x as usize, y as usize, Tile::empty());
            y = y + 1;
        }
        x = x + 1;
    }
}

/// Carve a horizontal tunnel: every cell `(x, y)` with `x` in the inclusive
/// span between `x1` and `x2` becomes passable; all other cells are kept.
/// The endpoints may be given in either order.
#[verifier::loop_isolation(false)]
pub fn create_h_tunnel(x1: i32, x2: i32, y: i32, g: &mut Grid)
    requires
        old(g).wf(),
        0 <= vstd::math::min(x1 as int, x2 as int),
        vstd::math::max(x1 as int, x2 as int) < old(g).spec_width(),
        0 <= y < old(g).spec_height(),
    ensures
        final(g).wf(),
        final(g).spec_width() == old(g).spec_width(),
        final(g).spec_height() == old(g).spec_height(),
        forall|cx: int, cy: int|
            final(g).in_bounds(cx, cy) ==> (#[trigger] final(g)@[cx][cy]) == (if on_h_span(
                x1 as int,
                x2 as int,
                y as int,
                cx,
                cy,
            ) {
                empty_tile()
            } else {
                old(g)@[cx][cy]
            }),
{
    let lo: i32 = if x1 <= x2 {
        x1
    } else {
        x2
    };
    let hi: i32 = if x1 <= x2 {
        x2
    } else {
        x1
    };
    let mut x: i64 = lo as i64;
    while x <= hi as i64
        invariant
            g.wf(),
            g.spec_width() == old(g).spec_width(),
            g.spec_height() == old(g).spec_height(),
            lo == vstd::math::min(x1 as int, x2 as int),
            hi == vstd::math::max(x1 as int, x2 as int),
            0 <= lo <= x <= hi + 1,
            hi < g.spec_width(),
            0 <= y < g.spec_height(),
            forall|cx: int, cy: int|
                g.in_bounds(cx, cy) ==> (#[trigger] g@[cx][cy]) == (if cy == y && lo <= cx < x {
                    empty_tile()
                } else {
                    old(g)@[cx][cy]
                }),
        decreases hi + 1 - x,
    {
        g.set_tile(x as usize, y as usize, Tile::empty());
        x = x + 1;
    }
}

/// Carve a vertical tunnel: every cell `(x, y)` with `y` in the inclusive
/// span between `y1` and `y2` becomes passable; all other cells are kept.
/// The endpoints may be given in either order.
#[verifier::loop_isolation(false)]
pub fn create_v_tunnel(y1: i32, y2: i32, x: i32, g: &mut Grid)
    requires
        old(g).wf(),
        0 <= vstd::math::min(y1 as int, y2 as int),
        vstd::math::max(y1 as int, y2 as int) < old(g).spec_height(),
        0 <= x < old(g).spec_width(),
    ensures
        final(g).wf(),
        final(g).spec_width() == old(g).spec_width(),
        final(g).spec_height() == old(g).spec_height(),
        forall|cx: int, cy: int|
            final(g).in_bounds(cx, cy) ==> (#[trigger] final(g)@[cx][cy]) == (if on_v_span(
                y1 as int,
                y2 as int,
                x as int,
                cx,
                cy,
            ) {
                empty_tile()
            } else {
                old(g)@[cx][cy]
            }),
{
    let lo: i32 = if y1 <= y2 {
        y1
    } else {
        y2
    };
    let hi: i32 = if y1 <= y2 {
        y2
    } else {
        y1
    };
    let mut y: i64 = lo as i64;
    while y <= hi as i64
        invariant
            g.wf(),
            g.spec_width() == old(g).spec_width(),
            g.spec_height() == old(g).spec_height(),
            lo == vstd::math::min(y1 as int, y2 as int),
            hi == vstd::math::max(y1 as int, y2 as int),
            0 <= lo <= y <= hi + 1,
            hi < g.spec_height(),
            0 <= x < g.spec_width(),
            forall|cx: int, cy: int|
                g.in_bounds(cx, cy) ==> (#[trigger] g@[cx][cy]) == (if cx == x && lo <= cy < y {
                    empty_tile()
                } else {
                    old(g)@[cx][cy]
                }),
        decreases hi + 1 - y,
    {
        g.set_tile(x as usize, y as usize, Tile::empty());
        y = y + 1;
    }
}

/// The cell `(x, y)` is carved passable by the two-room, one-tunnel plan.
pub open spec fn carved(
    room1: Rect,
    room2: Rect,
    tx1: int,
    tx2: int,
    ty: int,
    x: int,
    y: int,
) -> bool {
    in_interior(room1, x, y) || in_interior(room2, x, y) || on_h_span(tx1, tx2, ty, x, y)
}

/// The cell `(x, y)` lies on the boundary ring of `r`: inside the closed
/// rectangle but not strictly inside it.
pub open spec fn on_boundary(r: Rect, x: int, y: int) -> bool {
    r.x1 <= x <= r.x2 && r.y1 <= y <= r.y2 && !in_interior(r, x, y)
}

/// The grid the generator produces, cell by cell: passable where the plan
/// carves, solid wall everywhere else. A pure function of the parameters.
pub open spec fn generated_map(
    width: int,
    height: int,
    room1: Rect,
    room2: Rect,
    tx1: int,
    tx2: int,
    ty: int,
) -> Seq<Seq<Tile>> {
    Seq::new(
        width as nat,
        |x: int|
            Seq::new(
                height as nat,
                |y: int|
                    if carved(room1, room2, tx1, tx2, ty, x, y) {
                        empty_tile()
                    } else {
                        wall_tile()
                    },
            ),
    )
}

/// Build the session map: a grid of the given size, fully solid, with the
/// two rooms' interiors and one horizontal tunnel carved passable. The
/// result is exactly `generated_map` of the parameters, so identical inputs
/// always produce identical grids.
pub fn make_map(
    width: usize,
    height: usize,
    room1: Rect,
    room2: Rect,
    tx1: i32,
    tx2: i32,
    ty: i32,
) -> (g: Grid)
    requires
        width <= i32::MAX,
        height <= i32::MAX,
        0 <= room1.x1 < room1.x2 <= width,
        0 <= room1.y1 < room1.y2 <= height,
        0 <= room2.x1 < room2.x2 <= width,
        0 <= room2.y1 < room2.y2 <= height,
        0 <= vstd::math::min(tx1 as int, tx2 as int),
        vstd::math::max(tx1 as int, tx2 as int) < width,
        0 <= ty < height,
    ensures
        g.wf(),
        g.spec_width() == width,
        g.spec_height() == height,
        g@ == generated_map(
            width as int,
            height as int,
            room1,
            room2,
            tx1 as int,
            tx2 as int,
            ty as int,
        ),
{
    let mut g = Grid::new(width, height, Tile::wall());
    create_room(room1, &mut g);
    create_room(room2, &mut g);
    create_h_tunnel(tx1, tx2, ty, &mut g);
    proof {
        let gm = generated_map(
            width as int,
            height as int,
            room1,
            room2,
            tx1 as int,
            tx2 as int,
            ty as int,
        );
        assert forall|x: int| 0 <= x < width implies g@[x] == gm[x] by {
            assert forall|y: int| 0 <= y < height implies g@[x][y] == gm[x][y] by {
                assert(g.in_bounds(x, y));
            }
            assert(g@[x] =~= gm[x]);
        }
        assert(g@ =~= gm);
    }
    g
}

/// After generation, every cell strictly inside either room's interior is
/// passable, and a cell on a room's boundary ring is solid wall unless a
/// tunnel or the other room carved it away.
pub proof fn lemma_generated_rooms(
    width: int,
    height: int,
    room1: Rect,
    room2: Rect,
    tx1: int,
    tx2: int,
    ty: int,
    x: int,
    y: int,
)
    requires
        0 <= x < width,
        0 <= y < height,
    ensures
        in_interior(room1, x, y) || in_interior(room2, x, y) ==> generated_map(
            width,
            height,
            room1,
            room2,
            tx1,
            tx2,
            ty,
        )[x][y] == empty_tile(),
        (on_boundary(room1, x, y) || on_boundary(room2, x, y)) && !carved(
            room1,
            room2,
            tx1,
            tx2,
            ty,
            x,
            y,
        ) ==> generated_map(width, height, room1, room2, tx1, tx2, ty)[x][y] == wall_tile(),
{
}

/// The coordinates `a` and `b` name orthogonally adjacent cells.
pub open spec fn orth_adjacent(a: (int, int), b: (int, int)) -> bool {
    ||| b.0 == a.0 + 1 && b.1 == a.1
    ||| b.0 == a.0 - 1 && b.1 == a.1
    ||| b.1 == a.1 + 1 && b.0 == a.0
    ||| b.1 == a.1 - 1 && b.0 == a.0
}

/// `p` is an open path through `m`: every step stands on an in-bounds
/// passable cell, and consecutive steps are orthogonally adjacent.
pub open spec fn is_open_path(m: Seq<Seq<Tile>>, p: Seq<(int, int)>) -> bool {
    &&& forall|i: int|
        0 <= i < p.len() ==> {
            &&& 0 <= (#[trigger] p[i]).0 < m.len()
            &&& 0 <= p[i].1 < m[p[i].0].len()
            &&& m[p[i].0][p[i].1] == empty_tile()
        }
    &&& forall|i: int| 0 <= i < p.len() - 1 ==> orth_adjacent(#[trigger] p[i], p[i + 1])
}

/// The generator's output guarantee: when the tunnel row runs strictly
/// inside both rooms' interiors at its two ends, the generated grid holds
/// an open path of passable cells leading from the first room's interior to
/// the second room's.
pub proof fn lemma_rooms_connected(
    width: int,
    height: int,
    room1: Rect,
    room2: Rect,
    tx1: int,
    tx2: int,
    ty: int,
)
    requires
        0 <= vstd::math::min(tx1, tx2),
        vstd::math::max(tx1, tx2) < width,
        0 <= ty < height,
        in_interior(room1, vstd::math::min(tx1, tx2), ty),
        in_interior(room2, vstd::math::max(tx1, tx2), ty),
    ensures
        exists|p: Seq<(int, int)>|
            {
                &&& is_open_path(generated_map(width, height, room1, room2, tx1, tx2, ty), p)
                &&& p.len() > 0
                &&& in_interior(room1, p[0].0, p[0].1)
                &&& in_interior(room2, p.last().0, p.last().1)
            },
{
    let gm = generated_map(width, height, room1, room2, tx1, tx2, ty);
    let lo = vstd::math::min(tx1, tx2);
    let hi = vstd::math::max(tx1, tx2);
    let p = Seq::new((hi - lo + 1) as nat, |i: int| (lo + i, ty));
    assert forall|i: int| 0 <= i < p.len() implies {
        &&& 0 <= (#[trigger] p[i]).0 < gm.len()
        &&& 0 <= p[i].1 < gm[p[i].0].len()
        &&& gm[p[i].0][p[i].1] == empty_tile()
    } by {
        assert(on_h_span(tx1, tx2, ty, lo + i, ty));
    }
    assert(is_open_path(gm, p));
    assert(p[0] == (lo, ty));
    assert(p.last() == (hi, ty));
}

/// The generator is deterministic: two grids that both came out of
/// `make_map` with the same parameters are cell-for-cell identical.
pub proof fn lemma_generator_deterministic(
    a: Grid,
    b: Grid,
    width: int,
    height: int,
    room1: Rect,
    room2: Rect,
    tx1: int,
    tx2: int,
    ty: int,
)
    requires
        a@ == generated_map(width, height, room1, room2, tx1, tx2, ty),
        b@ == generated_map(width, height, room1, room2, tx1, tx2, ty),
    ensures
        a@ == b@,
{
}

} // verus!

