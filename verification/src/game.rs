//! One turn of the game: what a key press does to the board, and whether the
//! game goes on.

use vstd::prelude::*;

use crate::board::FlowBoard;
use crate::input::{Command, Key};
use crate::model::BoardView;

verus! {

/// What the host does after a turn.
#[derive(Debug, Clone, Copy, PartialEq, Eq, Structural)]
pub enum Outcome {
    /// Show the board and wait for the next key.
    Continue,
    /// The player has left the game.
    Quit,
    /// Every pair of anchors is joined: the game is won.
    Solved,
}

impl BoardView {
    /// The board after `cmd` has been carried out. A move that fails ends the
    /// drag; leaving the game changes nothing.
    pub open spec fn obeying(self, cmd: Command) -> BoardView {
        match cmd {
            Command::Grab => self.toggled(),
            Command::Move(dir) => {
                let (moved, r) = self.moved(dir);
                if r is Err {
                    moved.released()
                } else {
                    moved
                }
            },
            Command::Quit | Command::Nothing => self,
        }
    }

    /// What a turn gives: the board afterwards and what the host does next.
    /// `key` is the key that was pressed, if one was. The board is tested for
    /// a solution after every turn but the one that leaves the game.
    pub open spec fn after_key(self, key: Option<Key>) -> (BoardView, Outcome) {
        let cmd = match key {
            Some(k) => k.spec_command(),
            None => Command::Nothing,
        };
        if cmd == Command::Quit {
            (self, Outcome::Quit)
        } else if self.obeying(cmd).solved() {
            (self.obeying(cmd), Outcome::Solved)
        } else {
            (self.obeying(cmd), Outcome::Continue)
        }
    }
}

/// Plays one turn on `board`: see [`BoardView::after_key`].
pub fn step(board: &mut FlowBoard, key: Option<Key>) -> (outcome: Outcome)
    requires
        old(board).wf(),
    ensures
        final(board).wf(),
        (final(board)@, outcome) == old(board)@.after_key(key),
{
    let cmd = match key {
        Some(k) => k.command(),
        None => Command::Nothing,
    };
    match cmd {
        Command::Quit => {
            return Outcome::Quit;
        },
        Command::Grab => {
            board.grab();
        },
        Command::Move(dir) => {
            if board.move_cursor(dir).is_err() {
                board.release();
            }
        },
        Command::Nothing => {},
    }
    match board.is_solved() {
        Ok(true) => Outcome::Solved,
        _ => Outcome::Continue,
    }
}

} // verus!
