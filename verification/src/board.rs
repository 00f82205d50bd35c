//! The executable board.

use vstd::prelude::*;

use crate::color::Color;
use crate::direction::Direction;
use crate::error::{FlowError, FlowResult};
use crate::model::BoardView;
use crate::tile::Tile;

verus! {

/// A board in play: a rectangular grid of tiles, a cursor on it, the drag flag
/// and the colour for the next pair of anchors.
#[derive(Debug)]
pub struct FlowBoard {
    rows: Vec<Vec<Tile>>,
    size_y: usize,
    size_x: usize,
    cursor_y: usize,
    cursor_x: usize,
    grabbed: bool,
    next_color: Color,
}

impl View for FlowBoard {
    type V = BoardView;

    closed spec fn view(&self) -> BoardView {
        BoardView {
            rows: Seq::new(self.rows@.len(), |r: int| self.rows@[r]@),
            width: self.size_x as nat,
            height: self.size_y as nat,
            cursor_y: self.cursor_y as nat,
            cursor_x: self.cursor_x as nat,
            grabbed: self.grabbed,
            next_color: self.next_color,
        }
    }
}

impl FlowBoard {
    /// The invariant of every board: see [`BoardView::wf`].
    pub open spec fn wf(&self) -> bool {
        self@.wf()
    }

    /// What a valid board means for the vectors behind it.
    proof fn lemma_shape(&self)
        requires
            self.wf(),
        ensures
            self.rows@.len() == self.size_y,
            forall|r: int| 0 <= r < self.size_y ==> (#[trigger] self.rows@[r])@.len() == self.size_x,
            forall|r: int, c: int|
                self@.in_bounds(r, c) ==> #[trigger] self@.tile(r, c) == self.rows@[r]@[c],
    {
        assert forall|r: int| 0 <= r < self.size_y implies (#[trigger] self.rows@[r])@.len()
            == self.size_x by {
            assert(self@.rows[r].len() == self.size_x);
        }
    }

    /// A board of `x` columns and `y` rows, all empty, with the cursor in the
    /// top left corner.
    pub fn new(x: usize, y: usize) -> (board: FlowBoard)
        ensures
            board.wf(),
            board@ == BoardView::blank(x as nat, y as nat),
    {
        let mut rows: Vec<Vec<Tile>> = Vec::with_capacity(y);
        let mut r: usize = 0;
        while r < y
            invariant
                r <= y,
                rows@.len() == r,
                forall|i: int|
                    0 <= i < r ==> (#[trigger] rows@[i])@ == Seq::new(x as nat, |c: int| Tile::Empty),
            decreases y - r,
        {
            let mut row: Vec<Tile> = Vec::with_capacity(x);
            let mut c: usize = 0;
            while c < x
                invariant
                    c <= x,
                    row@ == Seq::new(c as nat, |c: int| Tile::Empty),
                decreases x - c,
            {
                row.push(Tile::Empty);
                c += 1;
            }
            rows.push(row);
            r += 1;
        }
        let board = FlowBoard {
            rows,
            size_y: y,
            size_x: x,
            cursor_y: 0,
            cursor_x: 0,
            grabbed: false,
            next_color: Color::Red,
        };
        assert(board@.rows =~= BoardView::blank(x as nat, y as nat).rows);
        board
    }

    /// The number of columns.
    pub fn size_x(&self) -> (n: usize)
        ensures
            n == self@.width,
    {
        self.size_x
    }

    /// The number of rows.
    pub fn size_y(&self) -> (n: usize)
        ensures
            n == self@.height,
    {
        self.size_y
    }

    /// The row of the cursor.
    pub fn cursor_y(&self) -> (n: usize)
        ensures
            n == self@.cursor_y,
    {
        self.cursor_y
    }

    /// The column of the cursor.
    pub fn cursor_x(&self) -> (n: usize)
        ensures
            n == self@.cursor_x,
    {
        self.cursor_x
    }

    /// Whether a drag is on.
    pub fn grabbed(&self) -> (b: bool)
        ensures
            b == self@.grabbed,
    {
        self.grabbed
    }

    /// The tile at row `y`, column `x`.
    pub fn get_yx(&self, y: usize, x: usize) -> (r: FlowResult<Tile>)
        requires
            self.wf(),
        ensures
            r == self@.tile_at(y as int, x as int),
    {
        if y < self.size_y && x < self.size_x {
            return Ok(self.rows[y][x]);
        }
        Err(FlowError::InvalidCoords)
    }

    /// The tile under the cursor.
    pub fn get(&self) -> (t: Tile)
        requires
            self.wf(),
            self@.on_grid(),
        ensures
            t == self@.cursor_tile(),
    {
        self.rows[self.cursor_y][self.cursor_x]
    }

    /// Writes `t` to row `y`, column `x`, whatever stands there.
    fn put(&mut self, y: usize, x: usize, t: Tile)
        requires
            old(self).wf(),
            old(self)@.in_bounds(y as int, x as int),
        ensures
            final(self).wf(),
            final(self)@ == old(self)@.with_tile(y as int, x as int, t),
    {
        self.rows[y][x] = t;
        assert(self@.rows =~= old(self)@.with_tile(y as int, x as int, t).rows);
    }

    /// Places a wall at row `y`, column `x`.
    ///
    /// Fails with `InvalidCoords` outside the grid and with `TileNotEmpty` on
    /// a tile that is not empty; the board is then unchanged.
    pub fn set_wall(&mut self, y: usize, x: usize) -> (r: FlowResult<()>)
        requires
            old(self).wf(),
        ensures
            final(self).wf(),
            (final(self)@, r) == old(self)@.with_wall(y as int, x as int),
    {
        if y >= self.size_y || x >= self.size_x {
            return Err(FlowError::InvalidCoords);
        }
        proof {
            self.lemma_shape();
        }
        if !self.rows[y][x].is_empty() {
            return Err(FlowError::TileNotEmpty);
        }
        self.put(y, x, Tile::Wall);
        Ok(())
    }

    /// Places the two anchors of the next colour at `(y1, x1)` and `(y2, x2)`.
    ///
    /// Fails with `InvalidCoords` if either place lies outside the grid, and
    /// with `TileNotEmpty` if either tile is taken or the two places are one;
    /// the board is then unchanged. Otherwise both anchors are written in the
    /// colour next in line and the following colour takes its place. When the
    /// palette has no following colour the anchors stay and the call fails
    /// with `NoMoreColors`.
    pub fn set_source(&mut self, y1: usize, x1: usize, y2: usize, x2: usize) -> (r: FlowResult<()>)
        requires
            old(self).wf(),
        ensures
            final(self).wf(),
            (final(self)@, r) == old(self)@.with_source(
                y1 as int,
                x1 as int,
                y2 as int,
                x2 as int,
            ),
    {
        if y1 >= self.size_y || y2 >= self.size_y || x1 >= self.size_x || x2 >= self.size_x {
            return Err(FlowError::InvalidCoords);
        }
        proof {
            self.lemma_shape();
        }
        if !self.rows[y1][x1].is_empty() || !self.rows[y2][x2].is_empty() || (y1 == y2 && x1
            == x2) {
            return Err(FlowError::TileNotEmpty);
        }
        self.put(y1, x1, Tile::Source(self.next_color));
        self.put(y2, x2, Tile::Source(self.next_color));
        match self.next_color.next() {
            Ok(following) => {
                self.next_color = following;
                Ok(())
            },
            Err(e) => Err(e),
        }
    }

    /// Takes back the whole trail of `col`: every trail piece of that colour
    /// becomes empty. Anchors, walls and the other trails stay.
    pub fn clear_color(&mut self, col: Color)
        requires
            old(self).wf(),
        ensures
            final(self).wf(),
            final(self)@ == old(self)@.without_flow(col),
    {
        let ghost before = self@;
        let mut y: usize = 0;
        while y < self.size_y
            invariant
                before.wf(),
                self.wf(),
                y <= self.size_y,
                self@ == (BoardView { rows: self@.rows, ..before }),
                forall|r: int, c: int|
                    before.in_bounds(r, c) ==> #[trigger] self@.tile(r, c) == if r < y {
                        before.tile(r, c).without_flow(col)
                    } else {
                        before.tile(r, c)
                    },
            decreases self.size_y - y,
        {
            let mut x: usize = 0;
            while x < self.size_x
                invariant
                    before.wf(),
                    self.wf(),
                    y < self.size_y,
                    x <= self.size_x,
                    self@ == (BoardView { rows: self@.rows, ..before }),
                    forall|r: int, c: int|
                        before.in_bounds(r, c) ==> #[trigger] self@.tile(r, c) == if r < y || (r
                            == y && c < x) {
                            before.tile(r, c).without_flow(col)
                        } else {
                            before.tile(r, c)
                        },
                decreases self.size_x - x,
            {
                proof {
                    self.lemma_shape();
                }
                match self.rows[y][x] {
                    Tile::Flow(c) => {
                        if c == col {
                            self.put(y, x, Tile::Empty);
                        }
                    },
                    _ => {},
                }
                x += 1;
            }
            y += 1;
        }
        proof {
            let after = before.without_flow(col);
            assert forall|r: int| 0 <= r < before.height implies #[trigger] self@.rows[r]
                == after.rows[r] by {
                assert forall|c: int| 0 <= c < before.width implies self@.rows[r][c]
                    == after.rows[r][c] by {
                    assert(self@.tile(r, c) == before.tile(r, c).without_flow(col));
                }
                assert(self@.rows[r] =~= after.rows[r]);
            }
            assert(self@.rows =~= after.rows);
        }
    }

    /// Paints with `col` under the cursor: see [`BoardView::painted`].
    ///
    /// Fails with `TileNotEmpty` on a wall and on an anchor of another colour,
    /// and changes nothing then.
    pub fn set(&mut self, col: Color) -> (r: FlowResult<()>)
        requires
            old(self).wf(),
            old(self)@.on_grid(),
        ensures
            final(self).wf(),
            (final(self)@, r) == old(self)@.painted(col),
    {
        match self.get() {
            Tile::Source(c) => {
                if c == col {
                    self.grabbed = false;
                    return Ok(());
                }
                return Err(FlowError::TileNotEmpty);
            },
            Tile::Flow(c) => {
                if c == col {
                    self.clear_color(col);
                    self.grabbed = false;
                    return Ok(());
                }
                self.clear_color(c);
            },
            Tile::Wall => {
                return Err(FlowError::TileNotEmpty);
            },
            Tile::Empty => {},
        }
        self.put(self.cursor_y, self.cursor_x, Tile::Flow(col));
        Ok(())
    }

    /// Starts or ends a drag. Only an anchor or a trail piece under the cursor
    /// lets the flag flip; elsewhere nothing happens.
    pub fn grab(&mut self)
        requires
            old(self).wf(),
        ensures
            final(self).wf(),
            final(self)@ == old(self)@.toggled(),
    {
        if self.cursor_y >= self.size_y || self.cursor_x >= self.size_x {
            return ;
        }
        let under = self.get();
        if under.is_empty() || under.is_wall() {
            return ;
        }
        self.grabbed = !self.grabbed;
    }

    /// Ends a drag, if one is on. The host does this after a move has failed.
    pub fn release(&mut self)
        requires
            old(self).wf(),
        ensures
            final(self).wf(),
            final(self)@ == old(self)@.released(),
    {
        self.grabbed = false;
    }

    /// The tile one step from the cursor in direction `dir`, or
    /// `InvalidCoords` where the grid ends.
    pub fn get_dir(&self, dir: Direction) -> (r: FlowResult<Tile>)
        requires
            self.wf(),
        ensures
            r == self@.tile_at(self@.ahead(dir).0, self@.ahead(dir).1),
    {
        match dir {
            Direction::East => self.get_yx(self.cursor_y, self.cursor_x + 1),
            Direction::West => {
                if self.cursor_x == 0 {
                    Err(FlowError::InvalidCoords)
                } else {
                    self.get_yx(self.cursor_y, self.cursor_x - 1)
                }
            },
            Direction::South => self.get_yx(self.cursor_y + 1, self.cursor_x),
            Direction::North => {
                if self.cursor_y == 0 {
                    Err(FlowError::InvalidCoords)
                } else {
                    self.get_yx(self.cursor_y - 1, self.cursor_x)
                }
            },
        }
    }

    /// Moves the cursor one step in direction `dir`: see [`BoardView::moved`].
    ///
    /// At the edge of the grid, and during a drag in front of a wall, the call
    /// succeeds and changes nothing. During a drag the step paints; it fails
    /// with `EmptyTile` if the tile left behind has no colour, and with
    /// `TileNotEmpty` if the tile reached is an anchor of another colour. The
    /// cursor has stepped by then, and the drag is still on.
    pub fn move_cursor(&mut self, dir: Direction) -> (r: FlowResult<()>)
        requires
            old(self).wf(),
        ensures
            final(self).wf(),
            (final(self)@, r) == old(self)@.moved(dir),
    {
        let ahead = match self.get_dir(dir) {
            Ok(tile) => tile,
            Err(_) => {
                return Ok(());
            },
        };
        if self.grabbed && ahead.is_wall() {
            return Ok(());
        }
        let behind = self.get();
        match dir {
            Direction::East => {
                self.cursor_x += 1;
            },
            Direction::West => {
                self.cursor_x -= 1;
            },
            Direction::South => {
                self.cursor_y += 1;
            },
            Direction::North => {
                self.cursor_y -= 1;
            },
        }
        if !self.grabbed {
            return Ok(());
        }
        match behind.color() {
            Some(col) => self.set(col),
            None => Err(FlowError::EmptyTile),
        }
    }

    /// Whether the cell at row `y`, column `x` lies on the grid and carries
    /// `col`.
    fn carries(&self, y: usize, x: usize, col: Color) -> (b: bool)
        requires
            self.wf(),
        ensures
            b == (self@.color_at(y as int, x as int) == Some(col)),
    {
        match self.get_yx(y, x) {
            Ok(Tile::Flow(c)) | Ok(Tile::Source(c)) => c == col,
            _ => false,
        }
    }

    /// Whether the coloured tile at row `y`, column `x` has a neighbour of its
    /// own colour among the cells above, below, left and right of it.
    ///
    /// Fails with `InvalidCoords` outside the grid and with `EmptyTile` on a
    /// tile without colour.
    pub fn connected(&self, y: usize, x: usize) -> (r: FlowResult<bool>)
        requires
            self.wf(),
        ensures
            r == self@.connected(y as int, x as int),
    {
        let color = match self.get_yx(y, x) {
            Ok(Tile::Flow(c)) | Ok(Tile::Source(c)) => c,
            Ok(Tile::Empty) | Ok(Tile::Wall) => {
                return Err(FlowError::EmptyTile);
            },
            Err(e) => {
                return Err(e);
            },
        };
        if y > 0 && self.carries(y - 1, x, color) {
            return Ok(true);
        }
        if self.carries(y + 1, x, color) {
            return Ok(true);
        }
        if x > 0 && self.carries(y, x - 1, color) {
            return Ok(true);
        }
        Ok(self.carries(y, x + 1, color))
    }

    /// Whether the puzzle is solved: every anchor has a neighbour of its own
    /// colour. A board without anchors is solved.
    pub fn is_solved(&self) -> (r: FlowResult<bool>)
        requires
            self.wf(),
        ensures
            r == Ok::<bool, FlowError>(self@.solved()),
    {
        let mut y: usize = 0;
        while y < self.size_y
            invariant
                self.wf(),
                y <= self.size_y,
                forall|r: int, c: int|
                    self@.in_bounds(r, c) && r < y && #[trigger] self@.tile(r, c) is Source
                        ==> self@.connected(r, c) == Ok::<bool, FlowError>(true),
            decreases self.size_y - y,
        {
            let mut x: usize = 0;
            while x < self.size_x
                invariant
                    self.wf(),
                    y < self.size_y,
                    x <= self.size_x,
                    forall|r: int, c: int|
                        self@.in_bounds(r, c) && (r < y || (r == y && c < x))
                            && #[trigger] self@.tile(r, c) is Source ==> self@.connected(r, c)
                            == Ok::<bool, FlowError>(true),
                decreases self.size_x - x,
            {
                proof {
                    self.lemma_shape();
                }
                if self.rows[y][x].is_source() {
                    match self.connected(y, x) {
                        Ok(true) => {},
                        Ok(false) => {
                            assert(self@.tile(y as int, x as int) is Source);
                            return Ok(false);
                        },
                        Err(e) => {
                            return Err(e);
                        },
                    }
                }
                x += 1;
            }
            y += 1;
        }
        Ok(true)
    }
}

impl Default for FlowBoard {
    /// A board without cells.
    fn default() -> (board: FlowBoard)
        ensures
            board.wf(),
            board@ == BoardView::blank(0, 0),
    {
        FlowBoard::new(0, 0)
    }
}

impl Clone for FlowBoard {
    /// A second board in the same state.
    fn clone(&self) -> (copy: FlowBoard)
        ensures
            copy@ == self@,
    {
        let mut rows: Vec<Vec<Tile>> = Vec::with_capacity(self.rows.len());
        let mut r: usize = 0;
        while r < self.rows.len()
            invariant
                r <= self.rows.len(),
                rows@.len() == r,
                forall|i: int| 0 <= i < r ==> (#[trigger] rows@[i])@ == self.rows@[i]@,
            decreases self.rows.len() - r,
        {
            let mut row: Vec<Tile> = Vec::with_capacity(self.rows[r].len());
            let mut c: usize = 0;
            while c < self.rows[r].len()
                invariant
                    r < self.rows.len(),
                    c <= self.rows@[r as int]@.len(),
                    row@ == self.rows@[r as int]@.take(c as int),
                decreases self.rows@[r as int]@.len() - c,
            {
                row.push(self.rows[r][c]);
                c += 1;
            }
            rows.push(row);
            r += 1;
        }
        let copy = FlowBoard {
            rows,
            size_y: self.size_y,
            size_x: self.size_x,
            cursor_y: self.cursor_y,
            cursor_x: self.cursor_x,
            grabbed: self.grabbed,
            next_color: self.next_color,
        };
        assert(copy@.rows =~= self@.rows);
        copy
    }
}

} // verus!
