use crate::cell::Cell;
use crate::grid::{neighbour, neighbour_spec};
use crate::snake::{
    advanced_body, after_turn, collides, head_cell, initial_body, occupied, raised, spent,
    straight_for, Direction, Snake, Turning,
};
use rand::Rng;
use vstd::prelude::*;

verus! {

/// Index of the first food.
pub const INITIAL_FOOD: usize = 50;

/// Milliseconds between ticks at the start.
pub const INITIAL_TICK_TIME: u64 = 300;

/// Ticks of growth that one food gives.
pub const GROWTH_BONUS: u8 = 3;

/// Milliseconds taken off the tick interval for each food.
pub const SPEED_STEP: u64 = 4;

/// The tick interval never drops below this.
pub const MIN_TICK_TIME: u64 = 40;

/// Terminal columns kept for the side walls.
pub const BORDER_COLUMNS: u16 = 3;

/// Terminal rows kept for the top and bottom walls and the score.
pub const BORDER_ROWS: u16 = 4;

/// The key that ends the game.
pub const QUIT_KEY: u8 = 113;

/// What ended a game.
#[derive(Clone, Copy, Debug, PartialEq, Eq, Structural)]
pub enum Collision {
    Wall,
    Body,
}

/// The result of one tick.
#[derive(Clone, Copy, Debug, PartialEq, Eq, Structural)]
pub enum Outcome {
    Continue,
    Quit,
    GameOver(Collision),
}

/// The heading that a key asks for: i, j, l and k for up, left, right, down.
pub open spec fn key_direction(key: u8) -> Option<Direction> {
    if key == 105 {
        Some(Direction::Up)
    } else if key == 106 {
        Some(Direction::Left)
    } else if key == 108 {
        Some(Direction::Right)
    } else if key == 107 {
        Some(Direction::Down)
    } else {
        None
    }
}

/// Heading and marker after the per-tick reset and the key's request.
pub open spec fn steered(d: Direction, key: u8) -> (Direction, Turning) {
    match key_direction(key) {
        Some(to) => after_turn(d, straight_for(d), to),
        None => (d, straight_for(d)),
    }
}

/// The tick interval after one food: one step shorter, but not below the floor.
pub open spec fn sped_up(t: u64) -> u64 {
    if t >= MIN_TICK_TIME + SPEED_STEP {
        (t - SPEED_STEP) as u64
    } else {
        MIN_TICK_TIME
    }
}

/// Some index in `[1, cells)` holds no segment.
pub open spec fn has_free_cell(body: Seq<(usize, Cell)>, cells: int) -> bool {
    exists|j: usize| 1 <= j < cells && !occupied(body, j)
}

pub open spec fn empty_board(n: nat) -> Seq<Cell> {
    Seq::new(n, |i: int| Cell::Empty)
}

/// `base` with each segment written over it in order, the later winning.
pub open spec fn stamp(base: Seq<Cell>, segs: Seq<(usize, Cell)>) -> Seq<Cell>
    decreases segs.len(),
{
    if segs.len() == 0 {
        base
    } else {
        stamp(base, segs.drop_last()).update(segs.last().0 as int, segs.last().1)
    }
}

/// The board drawn from the food and the snake's body.
pub open spec fn board_view(n: nat, food: usize, body: Seq<(usize, Cell)>) -> Seq<Cell> {
    stamp(empty_board(n).update(food as int, Cell::Food), body)
}

/// A board of `n` empty cells.
fn empty_cells(n: usize) -> (r: Vec<Cell>)
    ensures
        r@ == empty_board(n as nat),
{
    let mut board: Vec<Cell> = Vec::new();
    let mut i: usize = 0;
    while i < n
        invariant
            i <= n,
            board@ == empty_board(i as nat),
        decreases n - i,
    {
        board.push(Cell::Empty);
        i = i + 1;
        assert(board@ =~= empty_board(i as nat));
    }
    board
}

/// Relies on rand's `Rng::gen_range` on the thread-local generator: a value
/// in `[low, high)`; it panics when `low >= high`.
#[verifier::external_body]
fn random_index(low: usize, high: usize) -> (r: usize)
    requires
        low < high,
    ensures
        low <= r < high,
{
    rand::thread_rng().gen_range(low, high)
}

/// The game: board size, food, snake, and the tick interval in milliseconds.
/// The board is redrawn from the snake and the food at each tick.
pub struct Game {
    pub width: usize,
    pub height: usize,
    pub board: Vec<Cell>,
    pub food: usize,
    pub snake: Snake,
    pub tick_time: u64,
}

impl Game {
    pub open spec fn cells(&self) -> int {
        self.width * self.height
    }

    /// Every segment lies on the board.
    pub open spec fn on_board(&self) -> bool {
        forall|i: int|
            0 <= i < self.snake.body@.len() ==> #[trigger] self.snake.body@[i].0 < self.cells()
    }

    pub open spec fn wf(&self) -> bool {
        &&& self.width >= 1
        &&& self.height >= 1
        &&& 1 < self.cells() <= usize::MAX
        &&& self.food < self.cells()
        &&& self.snake.wf()
        &&& self.on_board()
        &&& self.board@.len() == self.cells()
        &&& self.tick_time >= MIN_TICK_TIME
    }

    /// A game sized to a terminal of `term_width` columns and `term_height`
    /// rows, less the room for walls and score.
    pub fn new(term_width: u16, term_height: u16) -> (r: Game)
        requires
            term_width >= BORDER_COLUMNS + 8,
            term_height > BORDER_ROWS,
            (term_width - BORDER_COLUMNS) * (term_height - BORDER_ROWS) > INITIAL_FOOD,
        ensures
            r.wf(),
            r.width == term_width - BORDER_COLUMNS,
            r.height == term_height - BORDER_ROWS,
            r.food == INITIAL_FOOD,
            r.tick_time == INITIAL_TICK_TIME,
            r.snake.body@ == initial_body(),
            r.snake.growth_counter == 0,
            r.snake.direction == Direction::Right,
            r.snake.turning == Turning::Keephorizontal,
            r.snake.head_symbol == Cell::Headsright,
            r.board@ == empty_board(r.cells() as nat),
    {
        let width = (term_width - BORDER_COLUMNS) as usize;
        let height = (term_height - BORDER_ROWS) as usize;
        assert(width * height <= 0xffff_ffff) by (nonlinear_arith)
            requires width < 0x10000, height < 0x10000;
        assert(0xffff_ffff <= usize::MAX);
        let board = empty_cells(width * height);
        Game { width, height, board, food: INITIAL_FOOD, snake: Snake::new(), tick_time: INITIAL_TICK_TIME }
    }

    /// Resets the turning marker to the straight one of the current axis, then
    /// steers by `key`. Returns whether `key` asks to quit.
    pub fn take_direction(&mut self, key: u8) -> (quit: bool)
        ensures
            quit == (key == QUIT_KEY),
            (final(self).snake.direction, final(self).snake.turning) == steered(
                old(self).snake.direction,
                key,
            ),
            final(self).snake.body == old(self).snake.body,
            final(self).snake.growth_counter == old(self).snake.growth_counter,
            final(self).snake.head_symbol == old(self).snake.head_symbol,
            final(self).width == old(self).width,
            final(self).height == old(self).height,
            final(self).board == old(self).board,
            final(self).food == old(self).food,
            final(self).tick_time == old(self).tick_time,
    {
        self.snake.turning = match self.snake.direction {
            Direction::Up | Direction::Down => Turning::Keepvertical,
            Direction::Left | Direction::Right => Turning::Keephorizontal,
        };
        if key == 105 {
            self.snake.take_direction(Direction::Up);
        } else if key == 106 {
            self.snake.take_direction(Direction::Left);
        } else if key == 108 {
            self.snake.take_direction(Direction::Right);
        } else if key == 107 {
            self.snake.take_direction(Direction::Down);
        }
        key == QUIT_KEY
    }

    /// Puts the food at `candidate` when no segment lies there, and says
    /// whether it did.
    pub fn place_food(&mut self, candidate: usize) -> (placed: bool)
        requires
            old(self).wf(),
            candidate < old(self).cells(),
        ensures
            final(self).wf(),
            placed == !occupied(old(self).snake.body@, candidate),
            placed ==> final(self).food == candidate,
            !placed ==> final(self).food == old(self).food,
            final(self).width == old(self).width,
            final(self).height == old(self).height,
            final(self).board == old(self).board,
            final(self).snake == old(self).snake,
            final(self).tick_time == old(self).tick_time,
    {
        if self.snake.occupies(candidate) {
            false
        } else {
            self.food = candidate;
            true
        }
    }

    /// When the head is on the food: indices are drawn at random in
    /// `[1, cells)` and each is offered to `place_food` until one misses the
    /// snake (after as many misses as there are cells, the first free index
    /// is taken); the snake gets its growth bonus and the tick interval
    /// shortens. Otherwise nothing changes.
    pub fn check_for_food(&mut self)
        requires
            old(self).wf(),
        ensures
            final(self).wf(),
            final(self).width == old(self).width,
            final(self).height == old(self).height,
            final(self).board == old(self).board,
            final(self).snake.body == old(self).snake.body,
            final(self).snake.direction == old(self).snake.direction,
            final(self).snake.turning == old(self).snake.turning,
            final(self).snake.head_symbol == old(self).snake.head_symbol,
            old(self).snake.head() != old(self).food ==> final(self).food == old(self).food
                && final(self).snake.growth_counter == old(self).snake.growth_counter
                && final(self).tick_time == old(self).tick_time,
            old(self).snake.head() == old(self).food ==> {
                &&& final(self).snake.growth_counter == raised(
                    old(self).snake.growth_counter,
                    GROWTH_BONUS,
                )
                &&& final(self).tick_time == sped_up(old(self).tick_time)
                &&& has_free_cell(old(self).snake.body@, old(self).cells()) ==> {
                    &&& 1 <= final(self).food < old(self).cells()
                    &&& !occupied(old(self).snake.body@, final(self).food)
                }
                &&& !has_free_cell(old(self).snake.body@, old(self).cells()) ==> final(self).food == old(self).food
            },
    {
        if self.snake.head_coordinate() != self.food {
            return;
        }
        let n = self.width * self.height;
        let candidate = random_index(1, n);
        let mut placed = self.place_food(candidate);
        let mut draws: usize = 1;
        while !placed && draws < n
            invariant
                self.wf(),
                n == self.cells(),
                1 <= draws <= n,
                self.width == old(self).width,
                self.height == old(self).height,
                self.board == old(self).board,
                self.snake == old(self).snake,
                self.tick_time == old(self).tick_time,
                placed ==> 1 <= self.food < n && !occupied(self.snake.body@, self.food),
                !placed ==> self.food == old(self).food,
            decreases n - draws,
        {
            let candidate = random_index(1, n);
            placed = self.place_food(candidate);
            draws = draws + 1;
        }
        if !placed {
            let mut j: usize = 1;
            while j < n && self.snake.occupies(j)
                invariant
                    1 <= j <= n,
                    n == self.cells(),
                    forall|k: usize| 1 <= k < j ==> occupied(self.snake.body@, k),
                decreases n - j,
            {
                j = j + 1;
            }
            if j < n {
                self.place_food(j);
            }
        }
        self.snake.set_growth_bonus(GROWTH_BONUS);
        if self.tick_time >= MIN_TICK_TIME + SPEED_STEP {
            self.tick_time = self.tick_time - SPEED_STEP;
        } else {
            self.tick_time = MIN_TICK_TIME;
        }
    }

    /// A head past the last cell hits the wall; a head on an older segment
    /// hits the body.
    pub fn check_for_collisions(&self) -> (r: Option<Collision>)
        requires
            self.snake.wf(),
            self.cells() <= usize::MAX,
        ensures
            r == if self.snake.head() >= self.cells() {
                Some(Collision::Wall)
            } else if collides(self.snake.body@, self.snake.head()) {
                Some(Collision::Body)
            } else {
                None
            },
    {
        let head = self.snake.head_coordinate();
        if head >= self.width * self.height {
            Some(Collision::Wall)
        } else if self.snake.body_collides_with(head) {
            Some(Collision::Body)
        } else {
            None
        }
    }

    /// Redraws the board: all empty, then the food, then each segment from
    /// tail to head.
    pub fn write_snake_and_food_on_the_board(&mut self)
        requires
            old(self).wf(),
        ensures
            final(self).wf(),
            final(self).board@ == board_view(
                old(self).cells() as nat,
                old(self).food,
                old(self).snake.body@,
            ),
            final(self).width == old(self).width,
            final(self).height == old(self).height,
            final(self).food == old(self).food,
            final(self).snake == old(self).snake,
            final(self).tick_time == old(self).tick_time,
    {
        let n = self.width * self.height;
        let mut board = empty_cells(n);
        board.set(self.food, Cell::Food);
        let ghost base = board@;
        let mut k: usize = 0;
        while k < self.snake.body.len()
            invariant
                self.wf(),
                n == self.cells(),
                k <= self.snake.body@.len(),
                base == empty_board(n as nat).update(self.food as int, Cell::Food),
                board@ == stamp(base, self.snake.body@.subrange(0, k as int)),
                board@.len() == n,
            decreases self.snake.body@.len() - k,
        {
            let seg = self.snake.body[k];
            assert(self.snake.body@[k as int].0 < self.cells());
            board.set(seg.0, seg.1);
            assert(self.snake.body@.subrange(0, k + 1).drop_last() =~= self.snake.body@.subrange(
                0,
                k as int,
            ));
            k = k + 1;
        }
        assert(self.snake.body@.subrange(0, self.snake.body@.len() as int) =~= self.snake.body@);
        self.board = board;
    }

    /// One tick: steer by `key`, stop at a wall, advance, eat, test for a
    /// collision with the body, and redraw the board.
    pub fn tick(&mut self, key: u8) -> (r: Outcome)
        requires
            old(self).wf(),
        ensures
            key == QUIT_KEY ==> r == Outcome::Quit,
            key != QUIT_KEY ==> {
                let (d, t) = steered(old(self).snake.direction, key);
                let next = neighbour_spec(
                    old(self).snake.head() as int,
                    d,
                    old(self).width as int,
                    old(self).height as int,
                );
                &&& next is None ==> r == Outcome::GameOver(Collision::Wall)
                &&& next matches Some(h) ==> {
                    let g = old(self).snake.growth_counter;
                    let kept = spent(g);
                    let body = advanced_body(old(self).snake.body@, g > 0, t, (h as usize, head_cell(d)));
                    &&& final(self).snake.head() == h
                    &&& final(self).snake.direction == d
                    &&& final(self).snake.turning == t
                    &&& final(self).snake.body@ == body
                    &&& final(self).snake.head_symbol == old(self).snake.head_symbol
                    &&& final(self).width == old(self).width
                    &&& final(self).height == old(self).height
                    &&& h != old(self).food ==> {
                        &&& final(self).food == old(self).food
                        &&& final(self).snake.growth_counter == kept
                        &&& final(self).tick_time == old(self).tick_time
                    }
                    &&& h == old(self).food ==> {
                        &&& final(self).snake.growth_counter == raised(kept, GROWTH_BONUS)
                        &&& final(self).tick_time == sped_up(old(self).tick_time)
                        &&& has_free_cell(body, old(self).cells()) ==> {
                            &&& 1 <= final(self).food < old(self).cells()
                            &&& !occupied(body, final(self).food)
                        }
                        &&& !has_free_cell(body, old(self).cells()) ==> final(self).food == old(self).food
                    }
                    &&& r == if collides(final(self).snake.body@, final(self).snake.head()) {
                        Outcome::GameOver(Collision::Body)
                    } else {
                        Outcome::Continue
                    }
                }
            },
            r == Outcome::Continue ==> {
                &&& final(self).wf()
                &&& final(self).board@ == board_view(
                    final(self).cells() as nat,
                    final(self).food,
                    final(self).snake.body@,
                )
            },
    {
        if self.take_direction(key) {
            return Outcome::Quit;
        }
        let head = self.snake.head_coordinate();
        match neighbour(head, self.snake.direction, self.width, self.height) {
            None => {
                return Outcome::GameOver(Collision::Wall);
            },
            Some(_) => {},
        }
        self.snake.advance(self.width);
        proof {
            assert forall|i: int| 0 <= i < self.snake.body@.len() implies #[trigger] self.snake.body@[i].0
                < self.cells() by {
                if i < self.snake.body@.len() - 1 {
                    if old(self).snake.growth_counter == 0 {
                        assert(self.snake.body@[i].0 == old(self).snake.body@[i + 1].0);
                    } else {
                        assert(self.snake.body@[i].0 == old(self).snake.body@[i].0);
                    }
                }
            }
        }
        self.check_for_food();
        match self.check_for_collisions() {
            Some(c) => {
                return Outcome::GameOver(c);
            },
            None => {},
        }
        self.write_snake_and_food_on_the_board();
        Outcome::Continue
    }

    /// The score: the snake's length.
    pub fn score(&self) -> (r: usize)
        ensures
            r == self.snake.body@.len(),
    {
        self.snake.body.len()
    }
}

} // verus!
