use snake_game::game::{Game, GameState};
use snake_game::input::Key;
use snake_game::point::Point;
use snake_game::snake::Direction;

#[test]
fn arrow_keys_ask_for_their_heading() {
    assert_eq!(Key::Up.to_heading(), Some(Direction::Up));
    assert_eq!(Key::Down.to_heading(), Some(Direction::Down));
    assert_eq!(Key::Left.to_heading(), Some(Direction::Left));
    assert_eq!(Key::Right.to_heading(), Some(Direction::Right));
}

#[test]
fn other_keys_ask_for_no_heading() {
    assert_eq!(Key::Char('q').to_heading(), None);
    assert_eq!(Key::Char('w').to_heading(), None);
    assert_eq!(Key::Other.to_heading(), None);
}

#[test]
fn only_lower_case_q_quits() {
    assert!(Key::Char('q').quits());
    assert!(!Key::Char('Q').quits());
    assert!(!Key::Char('x').quits());
    assert!(!Key::Up.quits());
    assert!(!Key::Other.quits());
}

#[test]
fn arrow_key_sets_the_heading() {
    let mut game = Game::new(10, 10, (80, 24));
    assert!(!game.get_user_input(Some(Key::Up)));
    assert_eq!(game.snake.direction, Direction::Up);
    assert!(!game.get_user_input(Some(Key::Left)));
    assert_eq!(game.snake.direction, Direction::Left);
    assert_eq!(game.state, GameState::Running);
    assert_eq!(game.snake.body, vec![Point::new(5, 5)]);
}

#[test]
fn no_key_keeps_the_heading() {
    let mut game = Game::new(10, 10, (80, 24));
    game.snake.direction = Direction::Down;
    assert!(!game.get_user_input(None));
    assert_eq!(game.snake.direction, Direction::Down);
}

#[test]
fn ignored_key_keeps_the_heading() {
    let mut game = Game::new(10, 10, (80, 24));
    assert!(!game.get_user_input(Some(Key::Char('a'))));
    assert!(!game.get_user_input(Some(Key::Other)));
    assert_eq!(game.snake.direction, Direction::Right);
    assert_eq!(game.state, GameState::Running);
}

#[test]
fn quit_key_ends_the_game_and_keeps_the_heading() {
    let mut game = Game::new(10, 10, (80, 24));
    assert!(game.get_user_input(Some(Key::Char('q'))));
    assert_eq!(game.state, GameState::Quit);
    assert_eq!(game.snake.direction, Direction::Right);
    assert_eq!(game.snake.body, vec![Point::new(5, 5)]);
    assert_eq!(game.score, 0);
}

#[test]
fn heading_may_be_turned_straight_back() {
    let mut game = Game::new(10, 10, (80, 24));
    assert_eq!(game.snake.direction, Direction::Right);
    assert!(!game.get_user_input(Some(Key::Left)));
    assert_eq!(game.snake.direction, Direction::Left);
}

#[test]
fn no_keys_change_nothing() {
    let mut game = Game::new(10, 10, (80, 24));
    game.snake.direction = Direction::Up;
    assert!(!game.take_keys(&Vec::new()));
    assert_eq!(game.snake.direction, Direction::Up);
    assert_eq!(game.state, GameState::Running);
}

#[test]
fn the_last_arrow_key_of_a_wait_decides() {
    let mut game = Game::new(10, 10, (80, 24));
    assert!(!game.take_keys(&vec![Key::Up, Key::Left, Key::Down]));
    assert_eq!(game.snake.direction, Direction::Down);
    assert!(!game.take_keys(&vec![Key::Left]));
    assert_eq!(game.snake.direction, Direction::Left);
    assert_eq!(game.state, GameState::Running);
    assert_eq!(game.snake.body, vec![Point::new(5, 5)]);
}

#[test]
fn keys_that_mean_nothing_leave_the_heading_of_the_arrows_before_them() {
    let mut game = Game::new(10, 10, (80, 24));
    assert!(!game.take_keys(&vec![Key::Up, Key::Char('x'), Key::Other]));
    assert_eq!(game.snake.direction, Direction::Up);
    assert!(!game.take_keys(&vec![Key::Other, Key::Char('Q')]));
    assert_eq!(game.snake.direction, Direction::Up);
}

#[test]
fn the_first_quit_key_of_a_wait_ends_the_game() {
    let mut game = Game::new(10, 10, (80, 24));
    assert!(game.take_keys(&vec![Key::Down, Key::Char('q'), Key::Left, Key::Char('q')]));
    assert_eq!(game.state, GameState::Quit);
    assert_eq!(game.snake.direction, Direction::Down);
    assert_eq!(game.snake.body, vec![Point::new(5, 5)]);
    assert_eq!(game.score, 0);
}

#[test]
fn a_quit_key_alone_ends_the_game() {
    let mut game = Game::new(10, 10, (80, 24));
    assert!(game.take_keys(&vec![Key::Char('q')]));
    assert_eq!(game.state, GameState::Quit);
    assert_eq!(game.snake.direction, Direction::Right);
}
