use flowboard::{step, Color, Command, Direction, FlowBoard, Key, Outcome, Tile};

#[test]
fn arrows_and_wasd_have_directions() {
    assert_eq!(Direction::try_from(Key::ArrowUp), Ok(Direction::North));
    assert_eq!(Direction::try_from(Key::Char('w')), Ok(Direction::North));
    assert_eq!(Direction::try_from(Key::ArrowDown), Ok(Direction::South));
    assert_eq!(Direction::try_from(Key::Char('s')), Ok(Direction::South));
    assert_eq!(Direction::try_from(Key::ArrowRight), Ok(Direction::East));
    assert_eq!(Direction::try_from(Key::Char('d')), Ok(Direction::East));
    assert_eq!(Direction::try_from(Key::ArrowLeft), Ok(Direction::West));
    assert_eq!(Direction::try_from(Key::Char('a')), Ok(Direction::West));
}

#[test]
fn other_keys_have_no_direction() {
    for key in [Key::Escape, Key::Other, Key::Char(' '), Key::Char('q'), Key::Char('W'), Key::Char('x')] {
        assert_eq!(Direction::try_from(key), Err(key));
    }
}

#[test]
fn keys_map_to_commands() {
    assert_eq!(Key::Char(' ').command(), Command::Grab);
    assert_eq!(Key::Char('q').command(), Command::Quit);
    assert_eq!(Key::Escape.command(), Command::Quit);
    assert_eq!(Key::ArrowUp.command(), Command::Move(Direction::North));
    assert_eq!(Key::Char('s').command(), Command::Move(Direction::South));
    assert_eq!(Key::Char('d').command(), Command::Move(Direction::East));
    assert_eq!(Key::ArrowLeft.command(), Command::Move(Direction::West));
    assert_eq!(Key::Other.command(), Command::Nothing);
    assert_eq!(Key::Char('Q').command(), Command::Nothing);
    assert_eq!(Key::Char('e').command(), Command::Nothing);
}

#[test]
fn a_game_is_played_to_its_end() {
    let mut board = FlowBoard::new(3, 1);
    assert_eq!(board.set_source(0, 0, 0, 2), Ok(()));
    assert_eq!(step(&mut board, None), Outcome::Continue);
    assert_eq!(step(&mut board, Some(Key::Other)), Outcome::Continue);
    assert_eq!(step(&mut board, Some(Key::Char(' '))), Outcome::Continue);
    assert!(board.grabbed());
    assert_eq!(step(&mut board, Some(Key::ArrowRight)), Outcome::Solved);
    assert_eq!(board.get(), Tile::Flow(Color::Red));
    assert_eq!(board.cursor_x(), 1);
}

#[test]
fn quitting_changes_nothing_and_asks_nothing() {
    // The board is solved, yet leaving the game is what the turn reports.
    let mut board = FlowBoard::new(2, 1);
    assert_eq!(board.set_source(0, 0, 0, 1), Ok(()));
    board.grab();
    assert_eq!(step(&mut board, Some(Key::Char('q'))), Outcome::Quit);
    assert_eq!(step(&mut board, Some(Key::Escape)), Outcome::Quit);
    assert!(board.grabbed());
    assert_eq!((board.cursor_y(), board.cursor_x()), (0, 0));
    assert_eq!(step(&mut board, None), Outcome::Solved);
}

#[test]
fn a_failed_move_ends_the_drag() {
    let mut board = FlowBoard::new(3, 2);
    assert_eq!(board.set_source(0, 0, 1, 2), Ok(()));
    assert_eq!(board.set_source(0, 1, 1, 0), Ok(()));
    assert_eq!(step(&mut board, Some(Key::Char(' '))), Outcome::Continue);
    assert!(board.grabbed());
    // Red is dragged into the orange anchor: refused, and the drag is over.
    assert_eq!(step(&mut board, Some(Key::Char('d'))), Outcome::Continue);
    assert!(!board.grabbed());
    assert_eq!((board.cursor_y(), board.cursor_x()), (0, 1));
    assert_eq!(board.get(), Tile::Source(Color::Orange));
}

#[test]
fn a_move_at_the_edge_keeps_the_drag() {
    let mut board = FlowBoard::new(3, 2);
    assert_eq!(board.set_source(0, 0, 1, 2), Ok(()));
    assert_eq!(step(&mut board, Some(Key::Char(' '))), Outcome::Continue);
    assert_eq!(step(&mut board, Some(Key::ArrowUp)), Outcome::Continue);
    assert_eq!(step(&mut board, Some(Key::Char('a'))), Outcome::Continue);
    assert!(board.grabbed());
    assert_eq!((board.cursor_y(), board.cursor_x()), (0, 0));
}
