use tictactoe::board::AiPolicy;
use tictactoe::game::TicTacToe;
use tictactoe::player::Player;
use tictactoe::session::{Action, Event, Session};

fn marks(session: &Session) -> usize {
    session.game().grid().iter().map(|row| row.iter().filter(|c| c.is_some()).count()).sum()
}

/// The pixel in the middle of the button of cell (i, j) on the usual board.
fn at(i: i32, j: i32) -> Event {
    Event::Click { x: 110 + 210 * j, y: 110 + 210 * i }
}

#[test]
fn quit_leaves_the_program_in_either_phase() {
    let mut session = Session::new(TicTacToe::new_instance((3, 3), 10, 200, None));
    assert_eq!(session.handle(Event::Quit), Action::Quit);
    assert_eq!(marks(&session), 0);
    for event in [at(0, 0), at(1, 0), at(0, 1), at(1, 1), at(0, 2)] {
        session.handle(event);
    }
    assert_eq!(session.winner(), Some(Player::O));
    assert_eq!(session.handle(Event::Quit), Action::Quit);
    assert_eq!(session.winner(), Some(Player::O));
}

#[test]
fn other_events_are_passed_over() {
    let mut session = Session::new(TicTacToe::new_instance((3, 3), 10, 200, None));
    assert_eq!(session.handle(Event::Other), Action::Wait);
    assert_eq!(marks(&session), 0);
    assert_eq!(session.winner(), None);
}

#[test]
fn click_between_buttons_is_passed_over() {
    let mut session = Session::new(TicTacToe::new_instance((3, 3), 10, 200, None));
    assert_eq!(session.handle(Event::Click { x: 5, y: 5 }), Action::Wait);
    assert_eq!(session.handle(Event::Click { x: 215, y: 100 }), Action::Wait);
    assert_eq!(marks(&session), 0);
    assert_eq!(session.game().whose_turn(), Player::O);
}

#[test]
fn click_on_a_button_plays_its_cell() {
    let mut session = Session::new(TicTacToe::new_instance((3, 3), 10, 200, None));
    assert_eq!(session.handle(at(1, 2)), Action::Redraw);
    assert_eq!(session.game().grid()[1][2], Some(Player::O));
    assert_eq!(session.game().whose_turn(), Player::X);
    // a click on a marked cell changes nothing, and the board is drawn again all the same
    assert_eq!(session.handle(at(1, 2)), Action::Redraw);
    assert_eq!(marks(&session), 1);
    assert_eq!(session.game().whose_turn(), Player::X);
}

#[test]
fn win_puts_the_end_screen_up_until_a_click() {
    let mut session = Session::new(TicTacToe::new_instance((3, 3), 10, 200, None));
    for event in [at(0, 0), at(1, 0), at(0, 1), at(1, 1)] {
        assert_eq!(session.handle(event), Action::Redraw);
    }
    assert_eq!(session.handle(at(0, 2)), Action::ShowWinner(Player::O));
    assert_eq!(session.winner(), Some(Player::O));
    assert_eq!(marks(&session), 5);
    assert_eq!(session.handle(Event::Other), Action::Wait);
    assert_eq!(session.winner(), Some(Player::O));
    assert_eq!(marks(&session), 5);
    // any click takes the screen down, wherever it lands
    assert_eq!(session.handle(Event::Click { x: -3, y: 100_000 }), Action::Redraw);
    assert_eq!(session.winner(), None);
    assert_eq!(marks(&session), 0);
    assert_eq!(session.game().whose_turn(), Player::O);
}

#[test]
fn draw_restarts_without_an_end_screen() {
    let mut session = Session::new(TicTacToe::new_instance((3, 3), 10, 200, None));
    let moves = [(0, 0), (0, 1), (0, 2), (1, 1), (1, 0), (1, 2), (2, 1), (2, 0), (2, 2)];
    for (i, j) in moves {
        assert_eq!(session.handle(at(i, j)), Action::Redraw);
        assert_eq!(session.winner(), None);
    }
    assert_eq!(marks(&session), 0);
    assert_eq!(session.game().whose_turn(), Player::O);
}

#[test]
fn computer_s_win_shows_the_computer_as_winner() {
    let mut game = TicTacToe::new_instance((3, 3), 10, 200, Some(Player::O));
    game.set_policy(AiPolicy::FirstEmpty);
    let mut session = Session::new(game);
    assert_eq!(session.handle(at(1, 0)), Action::Redraw);
    assert_eq!(session.handle(at(1, 1)), Action::Redraw);
    assert_eq!(session.handle(at(2, 2)), Action::ShowWinner(Player::O));
    assert_eq!(session.winner(), Some(Player::O));
    assert_eq!(session.handle(at(0, 0)), Action::Redraw);
    assert_eq!(marks(&session), 0);
    assert_eq!(session.game().whose_turn(), Player::X);
}
