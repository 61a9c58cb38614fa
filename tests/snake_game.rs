use snake::cell::Cell;
use snake::game::{Collision, Game, Outcome, GROWTH_BONUS, INITIAL_FOOD, INITIAL_TICK_TIME, QUIT_KEY};
use snake::grid::neighbour;
use snake::snake::{Direction, Snake, Turning};

fn snake_heading(d: Direction) -> Snake {
    let mut s = Snake::new();
    s.direction = d;
    s
}

fn turning_after(from: Direction, to: Direction) -> Turning {
    let mut s = snake_heading(from);
    s.take_direction(to);
    s.turning
}

fn occupied(s: &Snake, index: usize) -> bool {
    s.body.iter().any(|seg| seg.0 == index)
}

#[test]
fn corner_up_left_and_right_down() {
    assert_eq!(turning_after(Direction::Up, Direction::Left), Turning::Uptoleft);
    assert_eq!(turning_after(Direction::Right, Direction::Down), Turning::Uptoleft);
}

#[test]
fn corner_up_right_and_left_down() {
    assert_eq!(turning_after(Direction::Up, Direction::Right), Turning::Uptoright);
    assert_eq!(turning_after(Direction::Left, Direction::Down), Turning::Uptoright);
}

#[test]
fn corner_down_left_and_right_up() {
    assert_eq!(turning_after(Direction::Down, Direction::Left), Turning::Downtoleft);
    assert_eq!(turning_after(Direction::Right, Direction::Up), Turning::Downtoleft);
}

#[test]
fn corner_down_right_and_left_up() {
    assert_eq!(turning_after(Direction::Down, Direction::Right), Turning::Downtoright);
    assert_eq!(turning_after(Direction::Left, Direction::Up), Turning::Downtoright);
}

#[test]
fn reversals_are_ignored() {
    let pairs = [
        (Direction::Up, Direction::Down),
        (Direction::Down, Direction::Up),
        (Direction::Left, Direction::Right),
        (Direction::Right, Direction::Left),
    ];
    for (from, to) in pairs {
        let mut s = snake_heading(from);
        s.turning = Turning::Keepvertical;
        s.take_direction(to);
        assert_eq!(s.direction, from);
        assert_eq!(s.turning, Turning::Keepvertical);
    }
}

#[test]
fn other_requests_are_taken() {
    let all = [Direction::Up, Direction::Down, Direction::Left, Direction::Right];
    for from in all {
        for to in all {
            let reversal = matches!(
                (from, to),
                (Direction::Up, Direction::Down)
                    | (Direction::Down, Direction::Up)
                    | (Direction::Left, Direction::Right)
                    | (Direction::Right, Direction::Left)
            );
            let mut s = snake_heading(from);
            s.take_direction(to);
            assert_eq!(s.direction, if reversal { from } else { to });
        }
    }
}

#[test]
fn same_direction_keeps_turning() {
    let mut s = Snake::new();
    s.turning = Turning::Uptoleft;
    s.take_direction(Direction::Right);
    assert_eq!(s.direction, Direction::Right);
    assert_eq!(s.turning, Turning::Uptoleft);

    let mut g = Game::new(15, 14);
    g.snake.turning = Turning::Downtoleft;
    assert!(!g.take_direction(b'l'));
    assert_eq!(g.snake.direction, Direction::Right);
    assert_eq!(g.snake.turning, Turning::Keephorizontal);
}

#[test]
fn initial_snake_turning_down() {
    let mut s = Snake::new();
    assert_eq!(
        s.body,
        vec![
            (3, Cell::Tail),
            (4, Cell::Horizontal),
            (5, Cell::Horizontal),
            (6, Cell::Horizontal),
            (7, Cell::Headsright),
        ]
    );
    assert_eq!(s.direction, Direction::Right);
    s.take_direction(Direction::Down);
    assert_eq!(s.turning, Turning::Uptoleft);
    assert_eq!(s.direction, Direction::Down);
}

#[test]
fn advance_without_growth_keeps_length() {
    let mut s = Snake::new();
    s.advance(12);
    assert_eq!(
        s.body,
        vec![
            (4, Cell::Horizontal),
            (5, Cell::Horizontal),
            (6, Cell::Horizontal),
            (7, Cell::Horizontal),
            (8, Cell::Headsright),
        ]
    );
    assert_eq!(s.growth_counter, 0);
    assert_eq!(s.head_coordinate(), 8);
}

#[test]
fn advance_with_growth_adds_a_segment() {
    let mut s = Snake::new();
    s.growth_counter = 2;
    s.take_direction(Direction::Down);
    s.advance(12);
    assert_eq!(s.body.len(), 6);
    assert_eq!(s.growth_counter, 1);
    assert_eq!(s.body[0], (3, Cell::Tail));
    assert_eq!(s.body[4], (7, Cell::Uptoleft));
    assert_eq!(s.body[5], (19, Cell::Headsdown));
}

#[test]
fn advance_up_and_left() {
    let mut s = Snake::new();
    s.body = vec![(30, Cell::Tail), (31, Cell::Horizontal), (32, Cell::Headsright)];
    s.take_direction(Direction::Up);
    s.advance(12);
    assert_eq!(s.head_coordinate(), 20);
    assert_eq!(s.body[2], (20, Cell::Headsup));
    s.take_direction(Direction::Left);
    s.advance(12);
    assert_eq!(s.head_coordinate(), 19);
    assert_eq!(s.body[2], (19, Cell::Headsleft));
}

#[test]
fn set_growth_bonus_adds_and_saturates() {
    let mut s = Snake::new();
    s.set_growth_bonus(3);
    assert_eq!(s.growth_counter, 3);
    s.growth_counter = 254;
    s.set_growth_bonus(3);
    assert_eq!(s.growth_counter, 255);
}

#[test]
fn collision_skips_head_and_neck() {
    let s = Snake::new();
    assert!(!s.body_collides_with(7));
    assert!(!s.body_collides_with(6));
    assert!(s.body_collides_with(5));
    assert!(s.body_collides_with(3));
    assert!(!s.body_collides_with(40));
    assert!(s.occupies(7));
    assert!(!s.occupies(8));
}

#[test]
fn right_wall_at_last_column() {
    let mut s = Snake::new();
    s.body = vec![(8, Cell::Tail), (9, Cell::Horizontal), (10, Cell::Horizontal), (11, Cell::Headsright)];
    s.advance(12);
    assert_eq!(s.head_coordinate(), 12);
    assert_eq!(12 % 12, 0);

    let mut g = Game::new(15, 14);
    assert_eq!(g.width, 12);
    for expected_head in 8..12 {
        assert_eq!(g.tick(0), Outcome::Continue);
        assert_eq!(g.snake.head_coordinate(), expected_head);
    }
    assert_eq!(g.tick(0), Outcome::GameOver(Collision::Wall));
}

#[test]
fn top_and_bottom_walls() {
    let mut g = Game::new(15, 14);
    assert_eq!(g.tick(b'i'), Outcome::GameOver(Collision::Wall));

    let mut g = Game::new(43, 6);
    assert_eq!(g.height, 2);
    assert_eq!(g.tick(b'k'), Outcome::Continue);
    assert_eq!(g.snake.head_coordinate(), 47);
    assert_eq!(g.tick(0), Outcome::GameOver(Collision::Wall));
}

#[test]
fn left_wall_at_first_column() {
    let mut g = Game::new(15, 14);
    g.snake.body = vec![(14, Cell::Tail), (13, Cell::Horizontal), (12, Cell::Headsleft)];
    g.snake.direction = Direction::Left;
    assert_eq!(g.tick(0), Outcome::GameOver(Collision::Wall));
}

#[test]
fn self_collision_ends_the_game() {
    let mut g = Game::new(15, 14);
    g.snake.body = vec![
        (4, Cell::Tail),
        (5, Cell::Horizontal),
        (6, Cell::Horizontal),
        (18, Cell::Vertical),
        (17, Cell::Headsleft),
    ];
    g.snake.direction = Direction::Left;
    assert_eq!(g.tick(b'i'), Outcome::GameOver(Collision::Body));
    assert_eq!(g.snake.head_coordinate(), 5);
    assert_eq!(g.check_for_collisions(), Some(Collision::Body));
}

#[test]
fn quit_key_quits() {
    let mut g = Game::new(15, 14);
    assert_eq!(QUIT_KEY, b'q');
    assert_eq!(g.tick(b'q'), Outcome::Quit);
    assert_eq!(g.snake.head_coordinate(), 7);
}

#[test]
fn unknown_keys_are_ignored() {
    let mut g = Game::new(15, 14);
    assert_eq!(g.tick(b'z'), Outcome::Continue);
    assert_eq!(g.snake.direction, Direction::Right);
    assert_eq!(g.snake.head_coordinate(), 8);
}

#[test]
fn new_game_sizes_to_terminal() {
    let g = Game::new(80, 24);
    assert_eq!(g.width, 77);
    assert_eq!(g.height, 20);
    assert_eq!(g.food, INITIAL_FOOD);
    assert_eq!(g.food, 50);
    assert_eq!(g.tick_time, INITIAL_TICK_TIME);
    assert_eq!(g.tick_time, 300);
    assert_eq!(g.board.len(), 77 * 20);
    assert!(g.board.iter().all(|c| *c == Cell::Empty));
    assert_eq!(g.score(), 5);
}

#[test]
fn eating_food_grows_and_speeds_up() {
    let mut g = Game::new(15, 14);
    let keys = [b'k', 0, 0, 0, b'j', 0, 0, 0];
    for k in keys {
        assert_eq!(g.tick(k), Outcome::Continue);
        assert_eq!(g.food, 50);
    }
    assert_eq!(g.snake.head_coordinate(), 51);
    assert_eq!(g.tick(0), Outcome::Continue);
    assert_eq!(g.snake.head_coordinate(), 50);
    assert_eq!(g.snake.growth_counter, GROWTH_BONUS);
    assert_eq!(g.snake.growth_counter, 3);
    assert_eq!(g.tick_time, 296);
    assert_ne!(g.food, 50);
    assert!(g.food >= 1 && g.food < 120);
    assert!(!occupied(&g.snake, g.food));
    assert_eq!(g.board[g.food], Cell::Food);

    assert_eq!(g.tick(0), Outcome::Continue);
    assert_eq!(g.score(), 6);
    assert_eq!(g.snake.growth_counter, 2);
}

#[test]
fn food_respawn_misses_the_body() {
    for _ in 0..200 {
        let mut g = Game::new(43, 6);
        g.food = g.snake.head_coordinate();
        g.check_for_food();
        assert!(g.food >= 1 && g.food < 80);
        assert!(!occupied(&g.snake, g.food));
    }
}

#[test]
fn food_respawn_on_crowded_board() {
    let mut g = Game::new(43, 6);
    let mut body: Vec<(usize, Cell)> = (0..78).map(|i| (i, Cell::Horizontal)).collect();
    body[0].1 = Cell::Tail;
    body.push((78, Cell::Headsright));
    g.snake.body = body;
    g.food = 78;
    g.check_for_food();
    assert_eq!(g.food, 79);
}

#[test]
fn tick_interval_has_a_floor() {
    let mut g = Game::new(15, 14);
    g.tick_time = 42;
    g.food = g.snake.head_coordinate();
    g.check_for_food();
    assert_eq!(g.tick_time, 40);
    g.food = g.snake.head_coordinate();
    g.check_for_food();
    assert_eq!(g.tick_time, 40);
}

#[test]
fn no_food_no_change() {
    let mut g = Game::new(15, 14);
    g.check_for_food();
    assert_eq!(g.food, 50);
    assert_eq!(g.snake.growth_counter, 0);
    assert_eq!(g.tick_time, 300);
}

#[test]
fn board_shows_food_and_snake() {
    let mut g = Game::new(15, 14);
    g.write_snake_and_food_on_the_board();
    assert_eq!(g.board.len(), 120);
    assert_eq!(g.board[50], Cell::Food);
    assert_eq!(g.board[3], Cell::Tail);
    assert_eq!(g.board[5], Cell::Horizontal);
    assert_eq!(g.board[7], Cell::Headsright);
    assert_eq!(g.board.iter().filter(|c| **c == Cell::Empty).count(), 114);
}

#[test]
fn glyphs() {
    assert_eq!(Cell::Empty.match_to_symbol(), " ");
    assert_eq!(Cell::Food.match_to_symbol(), "X");
    assert_eq!(Cell::Tail.match_to_symbol(), "×");
    assert_eq!(Cell::Uptoleft.match_to_symbol(), "╗");
    assert_eq!(Cell::Uptoright.match_to_symbol(), "╔");
    assert_eq!(Cell::Downtoleft.match_to_symbol(), "╝");
    assert_eq!(Cell::Downtoright.match_to_symbol(), "╚");
    assert_eq!(Cell::Horizontal.match_to_symbol(), "═");
    assert_eq!(Cell::Vertical.match_to_symbol(), "║");
    assert_eq!(Cell::Headsup.match_to_symbol(), "^");
    assert_eq!(Cell::Headsdown.match_to_symbol(), "V");
    assert_eq!(Cell::Headsleft.match_to_symbol(), "<");
    assert_eq!(Cell::Headsright.match_to_symbol(), ">");
}

#[test]
fn neighbours_in_two_dimensions() {
    assert_eq!(neighbour(13, Direction::Up, 12, 10), Some(1));
    assert_eq!(neighbour(13, Direction::Down, 12, 10), Some(25));
    assert_eq!(neighbour(13, Direction::Left, 12, 10), Some(12));
    assert_eq!(neighbour(13, Direction::Right, 12, 10), Some(14));
    assert_eq!(neighbour(12, Direction::Left, 12, 10), None);
    assert_eq!(neighbour(11, Direction::Right, 12, 10), None);
    assert_eq!(neighbour(5, Direction::Up, 12, 10), None);
    assert_eq!(neighbour(115, Direction::Down, 12, 10), None);
}

#[test]
fn place_food_takes_only_free_cells() {
    let mut g = Game::new(15, 14);
    assert!(!g.place_food(5));
    assert_eq!(g.food, 50);
    assert!(!g.place_food(7));
    assert_eq!(g.food, 50);
    assert!(g.place_food(33));
    assert_eq!(g.food, 33);
}

#[test]
fn new_game_snake_is_the_fresh_snake() {
    let g = Game::new(15, 14);
    let s = Snake::new();
    assert_eq!(g.snake.body, s.body);
    assert_eq!(g.snake.growth_counter, s.growth_counter);
    assert_eq!(g.snake.direction, s.direction);
    assert_eq!(g.snake.turning, s.turning);
    assert_eq!(g.snake.head_symbol, Cell::Headsright);
    assert_eq!(g.snake.head_symbol, s.head_symbol);
}
