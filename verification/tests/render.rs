use flowboard::{Direction, FlowBoard};

const RESET: &str = "\u{1b}[0m";

#[test]
fn render_draws_frame_and_cursor() {
    let board = FlowBoard::new(2, 1);
    let expected = format!("+--+\n |O{RESET} {RESET}|\n +--+");
    assert_eq!(board.render(), expected);
}

#[test]
fn render_draws_every_kind_of_tile() {
    let mut board = FlowBoard::new(3, 2);
    assert_eq!(board.set_source(0, 0, 0, 2), Ok(()));
    assert_eq!(board.set_wall(1, 1), Ok(()));
    board.grab();
    assert_eq!(board.move_cursor(Direction::East), Ok(()));
    // Grabbed, the cursor is a small o in the colour of its tile.
    let top = format!(
        "\u{1b}[38;5;1m%{RESET}\u{1b}[38;5;1mo{RESET}\u{1b}[38;5;1m%{RESET}"
    );
    let bottom = format!(" {RESET}\u{1b}[38;5;8m&{RESET} {RESET}");
    assert_eq!(board.render(), format!("+---+\n |{top}|\n |{bottom}|\n +---+"));

    board.release();
    assert_eq!(board.move_cursor(Direction::South), Ok(()));
    // On the wall the cursor has no colour.
    let top = format!(
        "\u{1b}[38;5;1m%{RESET}\u{1b}[38;5;1m*{RESET}\u{1b}[38;5;1m%{RESET}"
    );
    let bottom = format!(" {RESET}O{RESET} {RESET}");
    assert_eq!(board.render(), format!("+---+\n |{top}|\n |{bottom}|\n +---+"));
}

#[test]
fn render_of_a_board_without_cells_is_a_frame() {
    assert_eq!(FlowBoard::new(0, 0).render(), "++\n ++");
    assert_eq!(FlowBoard::new(3, 0).render(), "+---+\n +---+");
    assert_eq!(FlowBoard::new(0, 2).render(), "++\n ||\n ||\n ++");
}
