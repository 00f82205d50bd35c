use flowboard::{Color, Direction, FlowError, Tile};

#[test]
fn next_walks_the_palette() {
    assert_eq!(Color::Red.next(), Ok(Color::Orange));
    assert_eq!(Color::Orange.next(), Ok(Color::Blue));
    assert_eq!(Color::Blue.next(), Ok(Color::Pink));
    assert_eq!(Color::Pink.next(), Ok(Color::Yellow));
    assert_eq!(Color::Yellow.next(), Ok(Color::Green));
    assert_eq!(Color::Green.next(), Ok(Color::Purple));
    assert_eq!(Color::Purple.next(), Ok(Color::Gray));
    assert_eq!(Color::Gray.next(), Err(FlowError::NoMoreColors));
}

#[test]
fn next_visits_every_colour_once() {
    let mut seen = vec![Color::Red];
    let mut at = Color::Red;
    while let Ok(following) = at.next() {
        assert!(!seen.contains(&following));
        seen.push(following);
        at = following;
    }
    assert_eq!(seen.len(), 8);
    assert_eq!(at, Color::Gray);
}

#[test]
fn defaults_are_the_first_of_each_kind() {
    assert_eq!(Color::default(), Color::Red);
    assert_eq!(Tile::default(), Tile::Empty);
    assert_eq!(Direction::default(), Direction::West);
}

#[test]
fn tile_predicates_tell_the_four_kinds_apart() {
    let all = [Tile::Empty, Tile::Wall, Tile::Source(Color::Pink), Tile::Flow(Color::Gray)];
    let expected = [
        (true, false, false, false),
        (false, true, false, false),
        (false, false, true, false),
        (false, false, false, true),
    ];
    for (tile, want) in all.iter().zip(expected) {
        assert_eq!((tile.is_empty(), tile.is_wall(), tile.is_source(), tile.is_flow()), want);
    }
}

#[test]
fn only_anchors_and_trail_pieces_have_a_colour() {
    assert_eq!(Tile::Empty.color(), None);
    assert_eq!(Tile::Wall.color(), None);
    assert_eq!(Tile::Source(Color::Green).color(), Some(Color::Green));
    assert_eq!(Tile::Flow(Color::Purple).color(), Some(Color::Purple));
}

#[test]
fn color_codes_are_those_of_the_terminal() {
    assert_eq!(Color::Red.code(), 1);
    assert_eq!(Color::Yellow.code(), 3);
    assert_eq!(Color::Orange.code(), 173);
    assert_eq!(Color::Green.code(), 2);
    assert_eq!(Color::Blue.code(), 4);
    assert_eq!(Color::Purple.code(), 5);
    assert_eq!(Color::Pink.code(), 13);
    assert_eq!(Color::Gray.code(), 243);
}

#[test]
fn colorize_sets_the_foreground_before_the_character() {
    assert_eq!(Color::Red.colorize('x'), "\u{1b}[38;5;1mx");
    assert_eq!(Color::Yellow.colorize('%'), "\u{1b}[38;5;3m%");
    assert_eq!(Color::Orange.colorize('*'), "\u{1b}[38;5;173m*");
    assert_eq!(Color::Green.colorize('o'), "\u{1b}[38;5;2mo");
    assert_eq!(Color::Blue.colorize('O'), "\u{1b}[38;5;4mO");
    assert_eq!(Color::Purple.colorize(' '), "\u{1b}[38;5;5m ");
    assert_eq!(Color::Pink.colorize('é'), "\u{1b}[38;5;13mé");
    assert_eq!(Color::Gray.colorize('m'), "\u{1b}[38;5;243mm");
}

#[test]
fn tile_colorize_leaves_colourless_tiles_plain() {
    assert_eq!(Tile::Empty.colorize('O'), "O");
    assert_eq!(Tile::Wall.colorize('o'), "o");
    assert_eq!(Tile::Source(Color::Orange).colorize('O'), "\u{1b}[38;5;173mO");
    assert_eq!(Tile::Flow(Color::Pink).colorize('o'), "\u{1b}[38;5;13mo");
}

#[test]
fn tile_render_ends_with_a_reset() {
    assert_eq!(Tile::Empty.render(), " \u{1b}[0m");
    assert_eq!(Tile::Wall.render(), "\u{1b}[38;5;8m&\u{1b}[0m");
    assert_eq!(Tile::Source(Color::Red).render(), "\u{1b}[38;5;1m%\u{1b}[0m");
    assert_eq!(Tile::Flow(Color::Gray).render(), "\u{1b}[38;5;243m*\u{1b}[0m");
}

#[test]
fn escape_opens_a_control_sequence() {
    assert_eq!(flowboard::escape("0m"), "\u{1b}[0m");
    assert_eq!(flowboard::escape(""), "\u{1b}[");
    assert_eq!(flowboard::escape("2J"), "\u{1b}[2J");
}

#[test]
fn errors_have_their_messages() {
    assert_eq!(FlowError::InvalidCoords.message(), "Invalid coordinates");
    assert_eq!(FlowError::EmptyTile.message(), "Can't drag empty square");
    assert_eq!(FlowError::NoMoreColors.message(), "No more available colors");
    assert_eq!(FlowError::TileNotEmpty.message(), "Tile is already taken");
}
