//! What holds of every board, proved from the definitions in
//! [`crate::model`].

use vstd::prelude::*;

use crate::color::{palette, Color};
use crate::direction::Direction;
use crate::error::FlowError;
use crate::model::BoardView;
use crate::tile::Tile;

verus! {

/// Taking back a trail, ending a drag, the grab key and painting keep a valid
/// board valid.
pub proof fn lemma_paint_keeps_wf(b: BoardView, col: Color)
    requires
        b.wf(),
    ensures
        b.toggled().wf(),
        b.released().wf(),
        b.without_flow(col).wf(),
        b.on_grid() ==> b.painted(col).0.wf(),
{
    if b.on_grid() {
        match b.cursor_tile() {
            Tile::Flow(c) => {
                assert(b.without_flow(c).wf());
            },
            _ => {},
        }
    }
}

/// A move keeps a valid board valid, whether it succeeds or fails.
pub proof fn lemma_move_keeps_wf(b: BoardView, dir: Direction)
    requires
        b.wf(),
    ensures
        b.moved(dir).0.wf(),
{
    if !b.blocked(dir) {
        match b.cursor_tile().spec_color() {
            Some(c) => {
                lemma_paint_keeps_wf(b.stepped(dir), c);
            },
            None => {},
        }
    }
}

/// Placing anchors or a wall keeps a valid board valid, whether it succeeds
/// or fails.
pub proof fn lemma_placement_keeps_wf(b: BoardView, y1: int, x1: int, y2: int, x2: int)
    requires
        b.wf(),
    ensures
        b.with_source(y1, x1, y2, x2).0.wf(),
        b.with_wall(y1, x1).0.wf(),
{
}

/// A step that the edge does not stop changes exactly one coordinate of the
/// cursor by one and succeeds, provided that either no drag is on, or the
/// drag can go on: the tile left behind has a colour, and the tile ahead is
/// neither a wall nor an anchor of another colour.
pub proof fn lemma_free_move_steps_once(b: BoardView, dir: Direction)
    requires
        b.wf(),
        !b.blocked(dir),
        b.grabbed ==> {
            let ahead = b.tile(b.ahead(dir).0, b.ahead(dir).1);
            &&& b.cursor_tile().spec_color() is Some
            &&& !(ahead is Wall)
            &&& ahead is Source ==> ahead.spec_color() == b.cursor_tile().spec_color()
        },
    ensures
        b.moved(dir).1 is Ok,
        ({
            let m = b.moved(dir).0;
            let dy = m.cursor_y - b.cursor_y;
            let dx = m.cursor_x - b.cursor_x;
            ||| (dy == 0 && (dx == 1 || dx == -1))
            ||| (dx == 0 && (dy == 1 || dy == -1))
        }),
        b.moved(dir).0.cursor_y == b.ahead(dir).0,
        b.moved(dir).0.cursor_x == b.ahead(dir).1,
{
}

/// A move against the edge of the grid succeeds and changes nothing, the drag
/// flag included.
pub proof fn lemma_move_at_edge(b: BoardView, dir: Direction)
    requires
        b.blocked(dir),
    ensures
        b.moved(dir) == (b, Ok::<(), FlowError>(())),
{
}

/// During a drag a wall ahead stops the cursor: the move succeeds and changes
/// nothing. Without a drag the cursor steps onto the wall.
pub proof fn lemma_wall_stops_drag(b: BoardView, dir: Direction)
    requires
        b.wf(),
        !b.blocked(dir),
        b.tile(b.ahead(dir).0, b.ahead(dir).1) is Wall,
    ensures
        b.grabbed ==> b.moved(dir) == (b, Ok::<(), FlowError>(())),
        !b.grabbed ==> b.moved(dir) == (b.stepped(dir), Ok::<(), FlowError>(())),
{
}

/// Placing anchors fails with `InvalidCoords` as soon as one coordinate is not
/// below the grid's height or width, and with `TileNotEmpty` if both places
/// lie on the grid and one of them is taken. The same holds of a wall. The
/// board is unchanged in each of these cases.
pub proof fn lemma_placement_refused(b: BoardView, y1: int, x1: int, y2: int, x2: int)
    requires
        b.wf(),
        0 <= y1,
        0 <= x1,
        0 <= y2,
        0 <= x2,
    ensures
        y1 >= b.height || x1 >= b.width || y2 >= b.height || x2 >= b.width ==> b.with_source(
            y1,
            x1,
            y2,
            x2,
        ) == (b, Err::<(), FlowError>(FlowError::InvalidCoords)),
        b.in_bounds(y1, x1) && b.in_bounds(y2, x2) && (!(b.tile(y1, x1) is Empty) || !(b.tile(
            y2,
            x2,
        ) is Empty)) ==> b.with_source(y1, x1, y2, x2) == (
            b,
            Err::<(), FlowError>(FlowError::TileNotEmpty),
        ),
        y1 >= b.height || x1 >= b.width ==> b.with_wall(y1, x1) == (
            b,
            Err::<(), FlowError>(FlowError::InvalidCoords),
        ),
        b.in_bounds(y1, x1) && !(b.tile(y1, x1) is Empty) ==> b.with_wall(y1, x1) == (
            b,
            Err::<(), FlowError>(FlowError::TileNotEmpty),
        ),
{
}

/// The grab key on an empty tile or a wall changes nothing; on an anchor or a
/// trail piece it flips the drag flag and changes nothing else.
pub proof fn lemma_grab_flips_on_colour(b: BoardView)
    requires
        b.wf(),
        b.on_grid(),
    ensures
        b.cursor_tile() is Empty || b.cursor_tile() is Wall ==> b.toggled() == b,
        !(b.cursor_tile() is Empty || b.cursor_tile() is Wall) ==> b.toggled() == (BoardView {
            grabbed: !b.grabbed,
            ..b
        }),
{
}

/// Play never replaces an anchor or a wall: a move, the paint rule, the grab
/// key, the end of a drag and the taking back of a trail leave each of them as
/// it was.
pub proof fn lemma_anchors_and_walls_stay(
    b: BoardView,
    dir: Direction,
    col: Color,
    y: int,
    x: int,
)
    requires
        b.wf(),
        b.in_bounds(y, x),
        b.tile(y, x) is Source || b.tile(y, x) is Wall,
    ensures
        b.moved(dir).0.tile(y, x) == b.tile(y, x),
        b.on_grid() ==> b.painted(col).0.tile(y, x) == b.tile(y, x),
        b.toggled().tile(y, x) == b.tile(y, x),
        b.released().tile(y, x) == b.tile(y, x),
        b.without_flow(col).tile(y, x) == b.tile(y, x),
{
    lemma_painted_keeps(b, col, y, x);
    if !b.blocked(dir) {
        match b.cursor_tile().spec_color() {
            Some(c) => {
                lemma_painted_keeps(b.stepped(dir), c, y, x);
            },
            None => {},
        }
    }
}

/// The paint rule leaves anchors and walls as they were.
proof fn lemma_painted_keeps(b: BoardView, col: Color, y: int, x: int)
    requires
        b.wf(),
        b.in_bounds(y, x),
        b.tile(y, x) is Source || b.tile(y, x) is Wall,
    ensures
        b.on_grid() ==> b.painted(col).0.tile(y, x) == b.tile(y, x),
        b.without_flow(col).tile(y, x) == b.tile(y, x),
{
    if b.on_grid() {
        match b.cursor_tile() {
            Tile::Flow(c) => {
                assert(b.without_flow(c).tile(y, x) == b.tile(y, x));
            },
            _ => {},
        }
    }
}

/// A drag stays on colour. A blank board has no drag on; the grab key, the
/// end of a drag, a move and a placement keep [`BoardView::drag_on_color`]
/// true; and where it is true a move never fails with `EmptyTile`.
pub proof fn lemma_drag_stays_on_color(
    b: BoardView,
    dir: Direction,
    y1: int,
    x1: int,
    y2: int,
    x2: int,
)
    requires
        b.wf(),
        b.drag_on_color(),
    ensures
        BoardView::blank(b.width, b.height).drag_on_color(),
        b.toggled().drag_on_color(),
        b.released().drag_on_color(),
        b.moved(dir).0.drag_on_color(),
        b.moved(dir).1 != Err::<(), FlowError>(FlowError::EmptyTile),
        b.with_source(y1, x1, y2, x2).0.drag_on_color(),
        b.with_wall(y1, x1).0.drag_on_color(),
{
}

/// Whether the pair `p` has one of its two anchors at `(y, x)`.
pub open spec fn stands_on(p: (int, int, int, int), y: int, x: int) -> bool {
    (p.0 == y && p.1 == x) || (p.2 == y && p.3 == x)
}

/// Whether every anchor of `pairs` has a cell of a `width` by `height` grid to
/// itself: each lies on the grid and no two share a cell.
pub open spec fn all_apart(width: nat, height: nat, pairs: Seq<(int, int, int, int)>) -> bool {
    &&& forall|i: int|
        0 <= i < pairs.len() ==> {
            let p = #[trigger] pairs[i];
            &&& 0 <= p.0 < height && 0 <= p.1 < width
            &&& 0 <= p.2 < height && 0 <= p.3 < width
            &&& !(p.0 == p.2 && p.1 == p.3)
        }
    &&& forall|i: int, j: int|
        0 <= i < j < pairs.len() ==> {
            let p = #[trigger] pairs[i];
            let q = #[trigger] pairs[j];
            !stands_on(p, q.0, q.1) && !stands_on(p, q.2, q.3)
        }
}

/// The colour of the pair placed after `k` others: the palette in order, and
/// its last colour from then on.
pub open spec fn nth_color(k: int) -> Color {
    if k < palette().len() {
        palette()[k]
    } else {
        palette().last()
    }
}

/// What the first `k` of the placements `pairs` leave of a blank board: a
/// valid board of the same size on which the colour next in line is
/// `nth_color(k)` and every cell that none of them used is empty.
proof fn lemma_after_sources(width: nat, height: nat, pairs: Seq<(int, int, int, int)>, k: int)
    requires
        all_apart(width, height, pairs),
        0 <= k <= pairs.len(),
    ensures
        ({
            let b = BoardView::blank(width, height).with_sources(pairs.take(k));
            &&& b.wf()
            &&& b.width == width
            &&& b.height == height
            &&& b.next_color == nth_color(k)
            &&& forall|y: int, x: int|
                b.in_bounds(y, x) && (forall|i: int| 0 <= i < k ==> !stands_on(pairs[i], y, x))
                    ==> #[trigger] b.tile(y, x) is Empty
        }),
    decreases k,
{
    let blank = BoardView::blank(width, height);
    if k == 0 {
        assert(pairs.take(0).len() == 0);
    } else {
        lemma_after_sources(width, height, pairs, k - 1);
        let p = pairs[k - 1];
        let before = blank.with_sources(pairs.take(k - 1));
        assert(pairs.take(k).drop_last() =~= pairs.take(k - 1));
        assert(pairs.take(k).last() == p);
        let b = blank.with_sources(pairs.take(k));
        assert(b == before.with_source(p.0, p.1, p.2, p.3).0);
        assert forall|i: int| 0 <= i < k - 1 implies !stands_on(pairs[i], p.0, p.1) && !stands_on(
            pairs[i],
            p.2,
            p.3,
        ) by {
            let q = pairs[i];
        }
        assert(before.tile(p.0, p.1) is Empty);
        assert(before.tile(p.2, p.3) is Empty);
        assert forall|y: int, x: int|
            b.in_bounds(y, x) && (forall|i: int|
                0 <= i < k ==> !stands_on(pairs[i], y, x)) implies #[trigger] b.tile(
            y,
            x,
        ) is Empty by {
            assert(!stands_on(pairs[k - 1], y, x));
            assert(before.tile(y, x) is Empty);
        }
    }
}

/// Pairs of anchors placed one after the other on a blank board, each anchor
/// on a cell of its own, take the colours of the palette in order. The
/// placement that follows `k` others writes both its anchors in the colour of
/// rank `k`, and succeeds, as long as that colour is not the last one. The
/// placement that writes the last colour, and each one after it, writes that
/// colour and fails with `NoMoreColors`.
pub proof fn lemma_colors_in_palette_order(
    width: nat,
    height: nat,
    pairs: Seq<(int, int, int, int)>,
    k: int,
)
    requires
        all_apart(width, height, pairs),
        0 <= k < pairs.len(),
    ensures
        ({
            let p = pairs[k];
            let before = BoardView::blank(width, height).with_sources(pairs.take(k));
            let (after, r) = before.with_source(p.0, p.1, p.2, p.3);
            &&& after.tile(p.0, p.1) == Tile::Source(nth_color(k))
            &&& after.tile(p.2, p.3) == Tile::Source(nth_color(k))
            &&& k + 1 < palette().len() ==> r == Ok::<(), FlowError>(())
            &&& k + 1 >= palette().len() ==> r == Err::<(), FlowError>(FlowError::NoMoreColors)
        }),
{
    lemma_after_sources(width, height, pairs, k);
    let p = pairs[k];
    let before = BoardView::blank(width, height).with_sources(pairs.take(k));
    assert forall|i: int| 0 <= i < k implies !stands_on(pairs[i], p.0, p.1) && !stands_on(
        pairs[i],
        p.2,
        p.3,
    ) by {
        let q = pairs[i];
    }
    assert(before.tile(p.0, p.1) is Empty);
    assert(before.tile(p.2, p.3) is Empty);
}

/// A board without anchors is solved; a blank board is one.
pub proof fn lemma_solved_without_anchors(b: BoardView)
    requires
        forall|y: int, x: int| b.in_bounds(y, x) ==> !(#[trigger] b.tile(y, x) is Source),
    ensures
        b.solved(),
        BoardView::blank(b.width, b.height).solved(),
{
}

/// An anchor alone with its colour keeps the board unsolved: a board is
/// solved only if each anchor has a cell next to it that carries its colour.
pub proof fn lemma_lonely_anchor_unsolved(b: BoardView, y: int, x: int, col: Color)
    requires
        b.in_bounds(y, x),
        b.tile(y, x) == Tile::Source(col),
        !b.touches(y, x, col),
    ensures
        !b.solved(),
{
}

} // verus!
