//! The board as text for a terminal that understands ANSI colours.

use vstd::prelude::*;

use crate::board::FlowBoard;
use crate::color::Color;
use crate::model::BoardView;
use crate::tile::Tile;

verus! {

/// The escape sequence with the body `code`: the escape character, an opening
/// bracket and the body.
pub open spec fn escaped(code: Seq<char>) -> Seq<char> {
    seq!['\u{1b}', '['] + code
}

/// The sequence that switches every colour and style off.
pub open spec fn reset() -> Seq<char> {
    escaped("0m"@)
}

/// The decimal digit for `d`, which is below ten.
pub open spec fn digit(d: nat) -> char {
    ('0' as u8 + d) as char
}

/// The number `n` in decimal digits, without leading zeros.
pub open spec fn decimal(n: nat) -> Seq<char>
    decreases n,
{
    if n < 10 {
        seq![digit(n)]
    } else {
        decimal(n / 10).push(digit(n % 10))
    }
}

/// The escape sequence with the body `code`.
pub fn escape(code: &str) -> (s: String)
    ensures
        s@ == escaped(code@),
{
    let mut s = String::new();
    s.push('\u{1b}');
    s.push('[');
    s.append(code);
    assert(s@ =~= escaped(code@));
    s
}

/// The decimal digit for `d`.
fn digit_char(d: u8) -> (c: char)
    requires
        d < 10,
    ensures
        c == digit(d as nat),
{
    ('0' as u8 + d) as char
}

/// Appends the decimal digits of `n` to `s`.
fn push_decimal(s: &mut String, n: u8)
    ensures
        final(s)@ == old(s)@ + decimal(n as nat),
{
    let ghost before = s@;
    if n >= 100 {
        s.push(digit_char(n / 100));
    }
    if n >= 10 {
        s.push(digit_char((n / 10) % 10));
    }
    s.push(digit_char(n % 10));
    proof {
        reveal_with_fuel(decimal, 3);
        assert(s@ =~= before + decimal(n as nat));
    }
}

impl Color {
    /// The number of this colour among the 256 colours of a terminal.
    pub open spec fn spec_code(&self) -> u8 {
        match self {
            Color::Red => 1,
            Color::Yellow => 3,
            Color::Orange => 173,
            Color::Green => 2,
            Color::Blue => 4,
            Color::Purple => 5,
            Color::Pink => 13,
            Color::Gray => 243,
        }
    }

    /// The number of this colour among the 256 colours of a terminal.
    #[verifier::when_used_as_spec(spec_code)]
    pub fn code(&self) -> (n: u8)
        ensures
            n == self.spec_code(),
    {
        match self {
            Color::Red => 1,
            Color::Yellow => 3,
            Color::Orange => 173,
            Color::Green => 2,
            Color::Blue => 4,
            Color::Purple => 5,
            Color::Pink => 13,
            Color::Gray => 243,
        }
    }

    /// The character `ch` behind the sequence that sets this colour as the
    /// foreground.
    pub open spec fn colorized(self, ch: char) -> Seq<char> {
        escaped("38;5;"@ + decimal(self.spec_code() as nat) + seq!['m', ch])
    }

    /// The character `ch` in this colour: the sequence that sets the colour
    /// as the foreground, then `ch`.
    pub fn colorize(&self, ch: char) -> (s: String)
        ensures
            s@ == self.colorized(ch),
    {
        let mut s = String::new();
        s.push('\u{1b}');
        s.push('[');
        s.append("38;5;");
        push_decimal(&mut s, self.code());
        s.push('m');
        s.push(ch);
        assert(s@ =~= self.colorized(ch));
        s
    }
}

impl Tile {
    /// The character `ch` in the colour of this tile. A tile without colour
    /// gives `ch` alone.
    pub open spec fn colorized(self, ch: char) -> Seq<char> {
        match self {
            Tile::Empty | Tile::Wall => seq![ch],
            Tile::Source(color) | Tile::Flow(color) => color.colorized(ch),
        }
    }

    /// The character `ch` in the colour of this tile. A tile without colour
    /// gives `ch` alone.
    pub fn colorize(&self, ch: char) -> (s: String)
        ensures
            s@ == self.colorized(ch),
    {
        match self {
            Tile::Empty | Tile::Wall => {
                let mut s = String::new();
                s.push(ch);
                assert(s@ =~= seq![ch]);
                s
            },
            Tile::Source(color) | Tile::Flow(color) => color.colorize(ch),
        }
    }

    /// The tile as it is drawn: a blank for an empty tile, a grey `&` for a
    /// wall, `%` for an anchor and `*` for a trail piece, each in its colour,
    /// and then the reset sequence.
    pub open spec fn rendered(self) -> Seq<char> {
        (match self {
            Tile::Empty => seq![' '],
            Tile::Wall => escaped("38;5;8m&"@),
            Tile::Source(color) => color.colorized('%'),
            Tile::Flow(color) => color.colorized('*'),
        }) + reset()
    }

    /// The tile as it is drawn.
    pub fn render(&self) -> (s: String)
        ensures
            s@ == self.rendered(),
    {
        let mut s = match self {
            Tile::Empty => {
                let mut blank = String::new();
                blank.push(' ');
                assert(blank@ =~= seq![' ']);
                blank
            },
            Tile::Wall => escape("38;5;8m&"),
            Tile::Source(color) => color.colorize('%'),
            Tile::Flow(color) => color.colorize('*'),
        };
        let end = escape("0m");
        s.append(end.as_str());
        s
    }
}

/// A line that closes the frame above or below a grid of `width` columns.
pub open spec fn border(width: nat) -> Seq<char> {
    seq!['+'] + Seq::new(width, |i: int| '-') + seq!['+']
}

impl BoardView {
    /// The cell `(y, x)` as it is drawn. Under the cursor stands `o` during a
    /// drag and `O` otherwise, in the colour of the tile.
    pub open spec fn cell_rendered(self, y: int, x: int) -> Seq<char> {
        if y == self.cursor_y && x == self.cursor_x {
            self.tile(y, x).colorized(if self.grabbed { 'o' } else { 'O' }) + reset()
        } else {
            self.tile(y, x).rendered()
        }
    }

    /// The first `n` cells of row `y` as they are drawn.
    pub open spec fn cells_rendered(self, y: int, n: nat) -> Seq<char>
        decreases n,
    {
        if n == 0 {
            Seq::empty()
        } else {
            self.cells_rendered(y, (n - 1) as nat) + self.cell_rendered(y, n - 1)
        }
    }

    /// The first `n` rows as they are drawn: each starts on a new line, one
    /// blank in, between two bars.
    pub open spec fn rows_rendered(self, n: nat) -> Seq<char>
        decreases n,
    {
        if n == 0 {
            Seq::empty()
        } else {
            self.rows_rendered((n - 1) as nat) + "\n |"@ + self.cells_rendered(
                n - 1,
                self.width,
            ) + seq!['|']
        }
    }

    /// The whole board as it is drawn: a border, the rows, and a border on a
    /// line of its own, one blank in.
    pub open spec fn rendered(self) -> Seq<char> {
        border(self.width) + self.rows_rendered(self.height) + "\n "@ + border(self.width)
    }
}

/// Appends the border of a grid of `width` columns to `s`.
fn push_border(s: &mut String, width: usize)
    ensures
        final(s)@ == old(s)@ + border(width as nat),
{
    let ghost before = s@;
    s.push('+');
    let mut i: usize = 0;
    while i < width
        invariant
            i <= width,
            s@ == before + seq!['+'] + Seq::new(i as nat, |i: int| '-'),
        decreases width - i,
    {
        s.push('-');
        i += 1;
        assert(s@ =~= before + seq!['+'] + Seq::new(i as nat, |i: int| '-'));
    }
    s.push('+');
    assert(s@ =~= before + border(width as nat));
}

impl FlowBoard {
    /// The board as text: see [`BoardView::rendered`].
    pub fn render(&self) -> (s: String)
        requires
            self.wf(),
        ensures
            s@ == self@.rendered(),
    {
        let mut s = String::new();
        push_border(&mut s, self.size_x());
        let mut y: usize = 0;
        while y < self.size_y()
            invariant
                self.wf(),
                y <= self@.height,
                s@ == border(self@.width) + self@.rows_rendered(y as nat),
            decreases self@.height - y,
        {
            s.append("\n |");
            let ghost start = s@;
            let mut x: usize = 0;
            while x < self.size_x()
                invariant
                    self.wf(),
                    y < self@.height,
                    x <= self@.width,
                    s@ == start + self@.cells_rendered(y as int, x as nat),
                decreases self@.width - x,
            {
                let tile = match self.get_yx(y, x) {
                    Ok(tile) => tile,
                    Err(_) => Tile::Empty,
                };
                let cell = if self.cursor_y() == y && self.cursor_x() == x {
                    let mut under = tile.colorize(if self.grabbed() { 'o' } else { 'O' });
                    let end = escape("0m");
                    under.append(end.as_str());
                    under
                } else {
                    tile.render()
                };
                assert(cell@ == self@.cell_rendered(y as int, x as int));
                s.append(cell.as_str());
                x += 1;
                assert(s@ =~= start + self@.cells_rendered(y as int, x as nat));
            }
            s.push('|');
            y += 1;
            assert(s@ =~= border(self@.width) + self@.rows_rendered(y as nat));
        }
        s.append("\n ");
        push_border(&mut s, self.size_x());
        assert(s@ =~= self@.rendered());
        s
    }
}

} // verus!
