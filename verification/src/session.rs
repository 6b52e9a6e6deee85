//! A sitting at the board: the game, the end screen after a win, and what
//! each event of the window leads to.

use vstd::prelude::*;
use crate::board::Board;
use crate::game::TicTacToe;
use crate::player::Player;

verus! {

/// What the window tells the program.
#[derive(Clone, Copy, PartialEq, Eq, Debug, Structural)]
pub enum Event {
    /// The window is being closed.
    Quit,
    /// A mouse button went down on the pixel `(x, y)`.
    Click { x: i32, y: i32 },
    /// Anything else.
    Other,
}

/// What the program does next.
#[derive(Clone, Copy, PartialEq, Eq, Debug, Structural)]
pub enum Action {
    /// Leave the program.
    Quit,
    /// Nothing changed: go on with the next event.
    Wait,
    /// Draw the board anew.
    Redraw,
    /// Fill the window with the winner's colour and wait for a click.
    ShowWinner(Player),
}

/// The model of a sitting: the board, and the winner for as long as the end
/// screen is up.
pub struct SessionView {
    pub board: Board,
    pub over: Option<Player>,
}

impl SessionView {
    /// Whether handling `event` may lead to `next` with `action`.
    ///
    /// While the end screen is up, a click clears the board and takes the
    /// screen down, and every other event but the closing of the window is
    /// passed over. During a game a click on a button plays its cell: a win
    /// puts the end screen up, and a draw leaves the board cleared. A click
    /// between the buttons is passed over.
    pub open spec fn handles_to(self, event: Event, next: SessionView, action: Action) -> bool {
        match event {
            Event::Quit => next == self && action == Action::Quit,
            Event::Other => next == self && action == Action::Wait,
            Event::Click { x, y } => match self.over {
                Some(_) => {
                    &&& next.board == self.board.restarted()
                    &&& next.over is None
                    &&& action == Action::Redraw
                },
                None => if self.board.no_hit(x as int, y as int) {
                    next == self && action == Action::Wait
                } else {
                    exists|i: int, j: int, played: Board, report: Option<Option<Player>>|
                        {
                            &&& #[trigger] self.board.first_hit(i, j, x as int, y as int)
                            &&& #[trigger] self.board.plays_to(i, j, played, report)
                            &&& match report {
                                Some(Some(winner)) => {
                                    &&& next.board == played
                                    &&& next.over == Some(winner)
                                    &&& action == Action::ShowWinner(winner)
                                },
                                Some(None) => {
                                    &&& next.board == played.restarted()
                                    &&& next.over is None
                                    &&& action == Action::Redraw
                                },
                                None => {
                                    &&& next.board == played
                                    &&& next.over is None
                                    &&& action == Action::Redraw
                                },
                            }
                        }
                },
            },
        }
    }
}

/// A sitting at the board.
pub struct Session {
    game: TicTacToe,
    over: Option<Player>,
}

impl View for Session {
    type V = SessionView;

    closed spec fn view(&self) -> SessionView {
        SessionView { board: self.game@, over: self.over }
    }
}

impl Session {
    /// The game is well formed.
    pub closed spec fn wf(&self) -> bool {
        self.game.wf()
    }

    /// Sits down at a game.
    pub fn new(game: TicTacToe) -> (session: Self)
        requires
            game.wf(),
        ensures
            session.wf(),
            session@ == (SessionView { board: game@, over: None }),
    {
        Session { game, over: None }
    }

    /// The game as it stands.
    pub fn game(&self) -> (game: &TicTacToe)
        requires
            self.wf(),
        ensures
            game.wf(),
            game@ == self@.board,
    {
        &self.game
    }

    /// The winner, for as long as the end screen is up.
    pub fn winner(&self) -> (winner: Option<Player>)
        ensures
            winner == self@.over,
    {
        self.over
    }

    /// Takes in one event of the window and says what to do next.
    pub fn handle(&mut self, event: Event) -> (action: Action)
        requires
            old(self).wf(),
        ensures
            final(self).wf(),
            old(self)@.handles_to(event, final(self)@, action),
    {
        match event {
            Event::Quit => Action::Quit,
            Event::Other => Action::Wait,
            Event::Click { x, y } => {
                if self.over.is_some() {
                    self.game.restart();
                    self.over = None;
                    Action::Redraw
                } else {
                    match self.game.button_pressed(x, y) {
                        None => Action::Wait,
                        Some((i, j)) => {
                            let report = self.game.play(i, j);
                            match report {
                                Some(Some(winner)) => {
                                    self.over = Some(winner);
                                    Action::ShowWinner(winner)
                                },
                                Some(None) => {
                                    self.game.restart();
                                    Action::Redraw
                                },
                                None => Action::Redraw,
                            }
                        },
                    }
                }
            },
        }
    }
}

} // verus!
