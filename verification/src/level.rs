//! Levels: the text that describes one, and the board that it sets up.
//!
//! The first line of a level holds the width and the height of the grid.
//! Each line after it is a directive: four numbers, column and row of one
//! anchor and column and row of the other, place a pair of anchors; two
//! numbers, column and row, place a wall. Empty lines are skipped. The pairs
//! take the colours of the palette in the order of their lines.

use vstd::prelude::*;

use crate::board::FlowBoard;
use crate::error::{FlowError, FlowResult};
use crate::model::BoardView;
use crate::text::{
    chars_of, fields, lines, number, parse_number, split_fields, split_lines, string_of, texts,
    trim, trimmed,
};

verus! {

/// A directive of a level. Places are given as `(row, column)`.
#[derive(Debug, Clone, Copy, PartialEq, Eq)]
pub enum Line {
    /// A pair of anchors at the two places.
    Source((usize, usize), (usize, usize)),
    /// A wall at the place.
    Wall((usize, usize)),
}

/// Why a text is no level. Each case but the first holds the piece of text at
/// fault, for the message to the player.
#[derive(Debug, Clone, PartialEq, Eq)]
pub enum LevelError {
    /// The text has no lines.
    Empty,
    /// The first line, which does not consist of exactly two fields.
    SizeLine(String),
    /// The field for the width, which is no number.
    SizeX(String),
    /// The field for the height, which is no number.
    SizeY(String),
    /// The first field of a directive in which some field is no number.
    Coordinate(String),
    /// A directive, as it stands in the text, with neither two nor four
    /// fields.
    Directive(String),
}

/// [`LevelError`] with its texts as sequences of characters.
pub enum LevelFault {
    Empty,
    SizeLine(Seq<char>),
    SizeX(Seq<char>),
    SizeY(Seq<char>),
    Coordinate(Seq<char>),
    Directive(Seq<char>),
}

impl View for LevelError {
    type V = LevelFault;

    open spec fn view(&self) -> LevelFault {
        match self {
            LevelError::Empty => LevelFault::Empty,
            LevelError::SizeLine(s) => LevelFault::SizeLine(s@),
            LevelError::SizeX(s) => LevelFault::SizeX(s@),
            LevelError::SizeY(s) => LevelFault::SizeY(s@),
            LevelError::Coordinate(s) => LevelFault::Coordinate(s@),
            LevelError::Directive(s) => LevelFault::Directive(s@),
        }
    }
}

impl LevelFault {
    /// The fault in words, with the piece of text at fault behind them. A bad
    /// height is reported in the words for a bad width.
    pub open spec fn message(self) -> Seq<char> {
        match self {
            LevelFault::Empty => "Invalid level: empty"@,
            LevelFault::SizeLine(s) => "Invalid level: invalid size line: "@ + s,
            LevelFault::SizeX(s) => "Invalid x size: "@ + s,
            LevelFault::SizeY(s) => "Invalid x size: "@ + s,
            LevelFault::Coordinate(s) => "Invalid coordinate: "@ + s,
            LevelFault::Directive(s) => "Invalid coordinate line: "@ + s,
        }
    }

    /// The status with which the game ends on this fault: 1 where the text is
    /// empty or its first line has not two fields, 0 elsewhere.
    pub open spec fn exit_code(self) -> i32 {
        match self {
            LevelFault::Empty | LevelFault::SizeLine(_) => 1,
            _ => 0,
        }
    }
}

impl LevelError {
    /// The error in words, for the player: see [`LevelFault::message`].
    pub fn message(&self) -> (s: String)
        ensures
            s@ == self@.message(),
    {
        match self {
            LevelError::Empty => "Invalid level: empty".to_owned(),
            LevelError::SizeLine(at) => "Invalid level: invalid size line: ".to_owned().concat(
                at.as_str(),
            ),
            LevelError::SizeX(at) => "Invalid x size: ".to_owned().concat(at.as_str()),
            LevelError::SizeY(at) => "Invalid x size: ".to_owned().concat(at.as_str()),
            LevelError::Coordinate(at) => "Invalid coordinate: ".to_owned().concat(at.as_str()),
            LevelError::Directive(at) => "Invalid coordinate line: ".to_owned().concat(
                at.as_str(),
            ),
        }
    }

    /// The status with which the game ends on this error: see
    /// [`LevelFault::exit_code`].
    pub fn exit_code(&self) -> (code: i32)
        ensures
            code == self@.exit_code(),
    {
        match self {
            LevelError::Empty | LevelError::SizeLine(_) => 1,
            _ => 0,
        }
    }
}

/// The directive that `line` writes. White space around it does not count.
/// The fields come as column before row.
pub open spec fn directive(line: Seq<char>) -> Result<Line, LevelFault> {
    let coords = fields(trimmed(line));
    if coords.len() == 4 {
        match (number(coords[0]), number(coords[1]), number(coords[2]), number(coords[3])) {
            (Some(x1), Some(y1), Some(x2), Some(y2)) => Ok(Line::Source((y1, x1), (y2, x2))),
            _ => Err(LevelFault::Coordinate(coords[0])),
        }
    } else if coords.len() == 2 {
        match (number(coords[0]), number(coords[1])) {
            (Some(x), Some(y)) => Ok(Line::Wall((y, x))),
            _ => Err(LevelFault::Coordinate(coords[0])),
        }
    } else {
        Err(LevelFault::Directive(line))
    }
}

/// The directives that the lines `ls` write, empty lines left out; or what is
/// wrong with the first line that writes none.
pub open spec fn directives(ls: Seq<Seq<char>>) -> Result<Seq<Line>, LevelFault>
    decreases ls.len(),
{
    if ls.len() == 0 {
        Ok(Seq::empty())
    } else {
        match directives(ls.drop_last()) {
            Err(e) => Err(e),
            Ok(found) => if ls.last().len() == 0 {
                Ok(found)
            } else {
                match directive(ls.last()) {
                    Ok(line) => Ok(found.push(line)),
                    Err(e) => Err(e),
                }
            },
        }
    }
}

/// The level that `text` writes: width, height and directives. The first
/// line must be two numbers with one blank between them and nothing around
/// them.
pub open spec fn level(text: Seq<char>) -> Result<(usize, usize, Seq<Line>), LevelFault> {
    let ls = lines(text);
    if ls.len() == 0 {
        Err(LevelFault::Empty)
    } else {
        let sizes = fields(ls[0]);
        if sizes.len() != 2 {
            Err(LevelFault::SizeLine(ls[0]))
        } else {
            match (number(sizes[0]), number(sizes[1])) {
                (None, _) => Err(LevelFault::SizeX(sizes[0])),
                (Some(_), None) => Err(LevelFault::SizeY(sizes[1])),
                (Some(x), Some(y)) => match directives(ls.skip(1)) {
                    Ok(found) => Ok((x, y, found)),
                    Err(e) => Err(e),
                },
            }
        }
    }
}

/// What the result of reading a directive says, in terms of [`directive`].
pub open spec fn line_read(r: Result<Line, LevelError>) -> Result<Line, LevelFault> {
    match r {
        Ok(line) => Ok(line),
        Err(e) => Err(e@),
    }
}

/// What the result of reading a level says, in terms of [`level`].
pub open spec fn level_read(r: Result<(usize, usize, Vec<Line>), LevelError>) -> Result<
    (usize, usize, Seq<Line>),
    LevelFault,
> {
    match r {
        Ok((x, y, found)) => Ok((x, y, found@)),
        Err(e) => Err(e@),
    }
}

/// Reads the directive that the characters `line` write.
fn read_line(line: &Vec<char>) -> (r: Result<Line, LevelError>)
    ensures
        line_read(r) == directive(line@),
{
    let trimmed = trim(line);
    let coords = split_fields(&trimmed);
    assert(forall|i: int| 0 <= i < coords.len() ==> coords[i]@ == #[trigger] texts(coords@)[i]);
    if coords.len() == 4 {
        match (
            parse_number(&coords[0]),
            parse_number(&coords[1]),
            parse_number(&coords[2]),
            parse_number(&coords[3]),
        ) {
            (Some(x1), Some(y1), Some(x2), Some(y2)) => Ok(Line::Source((y1, x1), (y2, x2))),
            _ => Err(LevelError::Coordinate(string_of(&coords[0]))),
        }
    } else if coords.len() == 2 {
        match (parse_number(&coords[0]), parse_number(&coords[1])) {
            (Some(x), Some(y)) => Ok(Line::Wall((y, x))),
            _ => Err(LevelError::Coordinate(string_of(&coords[0]))),
        }
    } else {
        Err(LevelError::Directive(string_of(line)))
    }
}

/// Reads the directive that `line` writes.
pub fn from_line(line: &str) -> (r: Result<Line, LevelError>)
    ensures
        line_read(r) == directive(line@),
{
    let chars = chars_of(line);
    read_line(&chars)
}

/// Reads the level that `text` writes: the width and the height of the grid
/// and the directives in their order.
pub fn from_text(text: &str) -> (r: Result<(usize, usize, Vec<Line>), LevelError>)
    ensures
        level_read(r) == level(text@),
{
    let chars = chars_of(text);
    let ls = split_lines(&chars);
    assert(forall|i: int| 0 <= i < ls.len() ==> ls[i]@ == #[trigger] texts(ls@)[i]);
    if ls.len() == 0 {
        return Err(LevelError::Empty);
    }
    let sizes = split_fields(&ls[0]);
    assert(forall|i: int| 0 <= i < sizes.len() ==> sizes[i]@ == #[trigger] texts(sizes@)[i]);
    if sizes.len() != 2 {
        return Err(LevelError::SizeLine(string_of(&ls[0])));
    }
    let size_x = match parse_number(&sizes[0]) {
        Some(n) => n,
        None => {
            return Err(LevelError::SizeX(string_of(&sizes[0])));
        },
    };
    let size_y = match parse_number(&sizes[1]) {
        Some(n) => n,
        None => {
            return Err(LevelError::SizeY(string_of(&sizes[1])));
        },
    };
    let ghost rest = texts(ls@).skip(1);
    assert(level(text@) == match directives(rest) {
        Ok(found) => Ok((size_x, size_y, found)),
        Err(e) => Err(e),
    });
    let mut found: Vec<Line> = Vec::new();
    let mut i: usize = 1;
    while i < ls.len()
        invariant
            1 <= i <= ls.len(),
            rest == texts(ls@).skip(1),
            level(text@) == match directives(rest) {
                Ok(found) => Ok((size_x, size_y, found)),
                Err(e) => Err(e),
            },
            directives(rest.take(i - 1)) == Ok::<Seq<Line>, LevelFault>(found@),
        decreases ls.len() - i,
    {
        assert(rest.take(i as int).drop_last() =~= rest.take(i - 1));
        assert(rest.take(i as int).last() == ls[i as int]@);
        if ls[i].len() > 0 {
            match read_line(&ls[i]) {
                Ok(line) => {
                    found.push(line);
                },
                Err(e) => {
                    proof {
                        assert(directives(rest.take(i as int)) == Err::<Seq<Line>, LevelFault>(
                            e@,
                        ));
                        lemma_first_fault(rest, i as int);
                    }
                    return Err(e);
                },
            }
        }
        i += 1;
    }
    assert(rest.take(ls.len() - 1) =~= rest);
    Ok((size_x, size_y, found))
}

/// A line that writes no directive spoils every longer run of lines in the
/// same way.
proof fn lemma_first_fault(ls: Seq<Seq<char>>, n: int)
    requires
        0 <= n <= ls.len(),
        directives(ls.take(n)) is Err,
    ensures
        directives(ls) == directives(ls.take(n)),
    decreases ls.len(),
{
    if n == ls.len() {
        assert(ls.take(n) =~= ls);
    } else {
        assert(ls.drop_last().take(n) =~= ls.take(n));
        lemma_first_fault(ls.drop_last(), n);
    }
}

impl BoardView {
    /// What carrying out the directive `line` gives: the board afterwards and
    /// the answer.
    pub open spec fn with_line(self, line: Line) -> (BoardView, FlowResult<()>) {
        match line {
            Line::Source(a, b) => self.with_source(a.0 as int, a.1 as int, b.0 as int, b.1 as int),
            Line::Wall(at) => self.with_wall(at.0 as int, at.1 as int),
        }
    }

    /// The board after the directives `found` have been carried out in their
    /// order, or the error of the first one that failed.
    pub open spec fn with_lines(self, found: Seq<Line>) -> FlowResult<BoardView>
        decreases found.len(),
    {
        if found.len() == 0 {
            Ok(self)
        } else {
            match self.with_lines(found.drop_last()) {
                Err(e) => Err(e),
                Ok(before) => match before.with_line(found.last()).1 {
                    Ok(()) => Ok(before.with_line(found.last()).0),
                    Err(e) => Err(e),
                },
            }
        }
    }
}

/// What the result of setting up a board says, in terms of
/// [`BoardView::with_lines`].
pub open spec fn board_built(r: FlowResult<FlowBoard>) -> FlowResult<BoardView> {
    match r {
        Ok(board) => Ok(board@),
        Err(e) => Err(e),
    }
}

/// A failure among the first directives is the failure of them all.
proof fn lemma_first_failure(b: BoardView, found: Seq<Line>, n: int)
    requires
        0 <= n <= found.len(),
        b.with_lines(found.take(n)) is Err,
    ensures
        b.with_lines(found) == b.with_lines(found.take(n)),
    decreases found.len(),
{
    if n == found.len() {
        assert(found.take(n) =~= found);
    } else {
        assert(found.drop_last().take(n) =~= found.take(n));
        lemma_first_failure(b, found.drop_last(), n);
    }
}

impl FlowBoard {
    /// Sets up the board of a level: a blank grid of `size_x` columns and
    /// `size_y` rows on which the directives `found` are carried out in their
    /// order. The first directive that fails ends the work, and its error is
    /// the answer.
    pub fn from_lines(size_x: usize, size_y: usize, found: &Vec<Line>) -> (r: FlowResult<FlowBoard>)
        ensures
            board_built(r) == BoardView::blank(size_x as nat, size_y as nat).with_lines(found@),
            r matches Ok(board) ==> board.wf(),
    {
        let ghost blank = BoardView::blank(size_x as nat, size_y as nat);
        let mut board = FlowBoard::new(size_x, size_y);
        let mut i: usize = 0;
        while i < found.len()
            invariant
                i <= found.len(),
                board.wf(),
                blank == BoardView::blank(size_x as nat, size_y as nat),
                blank.with_lines(found@.take(i as int)) == Ok::<BoardView, FlowError>(board@),
            decreases found.len() - i,
        {
            assert(found@.take(i + 1).drop_last() =~= found@.take(i as int));
            assert(found@.take(i + 1).last() == found@[i as int]);
            let ghost before = board@;
            let placed = match found[i] {
                Line::Source(a, b) => board.set_source(a.0, a.1, b.0, b.1),
                Line::Wall(at) => board.set_wall(at.0, at.1),
            };
            assert((board@, placed) == before.with_line(found@[i as int]));
            if let Err(e) = placed {
                proof {
                    assert(blank.with_lines(found@.take(i + 1)) == Err::<BoardView, FlowError>(e));
                    lemma_first_failure(blank, found@, i + 1);
                }
                return Err(e);
            }
            i += 1;
        }
        assert(found@.take(found.len() as int) =~= found@);
        Ok(board)
    }
}

} // verus!
