use snake::{score_label_column, snake_cells, Cell, Direction, Game, InputEvent, Layout, ResizePolicy, SetupError, Status};

fn start() -> Game {
    Game::new(60, 20, Layout::ScoreHeader, ResizePolicy::Adopt).unwrap()
}

#[test]
fn new_game_layout() {
    let g = start();
    assert_eq!(g.snake, vec![(20, 10), (19, 10), (18, 10), (17, 10), (16, 10), (15, 10)]);
    assert_eq!(g.direction, Direction::Right);
    assert_eq!(g.score, 0);
    assert_eq!(g.status, Status::Running);
    let f = g.fruit.unwrap();
    assert!(!g.snake.contains(&f));
    assert!(f.0 < 60 && f.1 >= 2 && f.1 < 20);
}

#[test]
fn too_small_boards_are_refused() {
    assert_eq!(Game::new(14, 20, Layout::FullBoard, ResizePolicy::Adopt).err(), Some(SetupError::BoardTooSmall));
    assert_eq!(Game::new(60, 3, Layout::ScoreHeader, ResizePolicy::Adopt).err(), Some(SetupError::BoardTooSmall));
    assert_eq!(Game::new(60, 0, Layout::FullBoard, ResizePolicy::Adopt).err(), Some(SetupError::BoardTooSmall));
    assert!(Game::new(15, 1, Layout::FullBoard, ResizePolicy::Adopt).is_ok());
    assert!(Game::new(15, 4, Layout::ScoreHeader, ResizePolicy::Adopt).is_ok());
}

#[test]
fn eating_scores_and_grows() {
    let mut g = start();
    g.fruit = Some((21, 10));
    assert!(g.tick());
    assert_eq!(g.score, 1);
    assert_eq!(g.snake.len(), 7);
    assert_eq!(g.snake[0], (21, 10));
    assert_eq!(g.snake[5], (16, 10));
    assert_eq!(g.snake[6], (16, 10));
    let f = g.fruit.unwrap();
    assert!(!g.snake.contains(&f));
    // The doubled tail spreads out on the next step.
    g.fruit = Some((0, 19));
    assert!(g.tick());
    assert_eq!(g.snake, vec![(22, 10), (21, 10), (20, 10), (19, 10), (18, 10), (17, 10), (16, 10)]);
    assert_eq!(g.score, 1);
}

#[test]
fn plain_tick_keeps_score_and_length() {
    let mut g = start();
    g.fruit = Some((0, 19));
    assert!(g.tick());
    assert_eq!(g.snake, vec![(21, 10), (20, 10), (19, 10), (18, 10), (17, 10), (16, 10)]);
    assert_eq!(g.score, 0);
    assert_eq!(g.fruit, Some((0, 19)));
}

#[test]
fn hitting_the_header_ends_the_game() {
    let mut g = start();
    g.fruit = Some((0, 19));
    g.handle_event(InputEvent::Key('w'));
    for _ in 0..7 {
        assert!(g.tick());
    }
    assert_eq!(g.snake[0], (20, 3));
    assert!(g.tick());
    assert_eq!(g.snake[0], (20, 2));
    let before = g.snake.clone();
    assert!(!g.tick());
    assert_eq!(g.status, Status::GameOver);
    assert_eq!(g.snake, before);
    assert!(!g.tick());
    assert_eq!(g.snake, before);
}

#[test]
fn reversal_bites_the_body() {
    let mut g = start();
    g.fruit = Some((0, 19));
    g.handle_event(InputEvent::Key('a'));
    assert_eq!(g.direction, Direction::Left);
    assert!(!g.tick());
    assert_eq!(g.status, Status::GameOver);
    assert_eq!(g.snake, vec![(20, 10), (19, 10), (18, 10), (17, 10), (16, 10), (15, 10)]);
}

#[test]
fn keys_set_the_direction() {
    let mut g = start();
    g.handle_event(InputEvent::Key('s'));
    assert_eq!(g.direction, Direction::Down);
    g.handle_event(InputEvent::Key('q'));
    assert_eq!(g.direction, Direction::Down);
    g.handle_event(InputEvent::Other);
    assert_eq!(g.direction, Direction::Down);
    g.handle_events(&vec![InputEvent::Key('w'), InputEvent::Key('d'), InputEvent::Key('x')]);
    assert_eq!(g.direction, Direction::Right);
}

#[test]
fn idle_polls_keep_direction() {
    let mut g = start();
    g.handle_event(InputEvent::Key('s'));
    for _ in 0..100 {
        g.handle_events(&vec![]);
        assert_eq!(g.direction, Direction::Down);
    }
    g.handle_events(&vec![InputEvent::Other, InputEvent::Key('z'), InputEvent::Resize(70, 30)]);
    assert_eq!(g.direction, Direction::Down);
}

#[test]
fn resize_is_adopted() {
    let mut g = start();
    g.handle_event(InputEvent::Resize(30, 12));
    assert_eq!((g.width, g.height), (30, 12));
    assert_eq!(g.status, Status::Running);
}

#[test]
fn resize_ends_game_when_asked() {
    let mut g = Game::new(60, 20, Layout::FullBoard, ResizePolicy::EndGame).unwrap();
    g.handle_event(InputEvent::Resize(30, 12));
    assert_eq!(g.status, Status::GameOver);
    assert_eq!((g.width, g.height), (60, 20));
    g.handle_event(InputEvent::Key('w'));
    assert_eq!(g.direction, Direction::Right);
    assert!(!g.tick());
}

#[test]
fn shrunk_board_makes_the_next_step_fatal() {
    let mut g = start();
    g.fruit = Some((0, 19));
    g.handle_event(InputEvent::Resize(21, 20));
    assert!(!g.tick());
    assert_eq!(g.status, Status::GameOver);
}

#[test]
fn cells_of_a_snake() {
    let cells = snake_cells(&vec![(3, 4), (2, 4), (2, 5)], &Direction::Up);
    assert_eq!(
        cells,
        vec![
            Cell { x: 3, y: 4, glyph: '∧' },
            Cell { x: 2, y: 4, glyph: '#' },
            Cell { x: 2, y: 5, glyph: '#' },
        ]
    );
}

#[test]
fn label_is_centred() {
    assert_eq!(score_label_column(20, "Points: 0".len()), 6);
    assert_eq!(score_label_column(60, "Points: 12".len()), 25);
    assert_eq!(score_label_column(5, "Points: 0".len()), 0);
}
