use crate::cell::{is_head, Cell};
use vstd::prelude::*;

verus! {

/// The heading of the snake.
#[derive(Clone, Copy, Debug, PartialEq, Eq, Structural)]
pub enum Direction {
    Up,
    Left,
    Right,
    Down,
}

/// The shape that the segment left behind by the head takes this tick.
#[derive(Clone, Copy, Debug, PartialEq, Eq, Structural)]
pub enum Turning {
    Uptoleft,
    Uptoright,
    Downtoleft,
    Downtoright,
    Keephorizontal,
    Keepvertical,
}

/// A request to head the opposite way.
pub open spec fn is_reversal(from: Direction, to: Direction) -> bool {
    match (from, to) {
        (Direction::Up, Direction::Down) | (Direction::Down, Direction::Up) | (
            Direction::Left,
            Direction::Right,
        ) | (Direction::Right, Direction::Left) => true,
        _ => false,
    }
}

/// The corner drawn for a quarter turn; `None` for any other pair.
pub open spec fn corner_of(from: Direction, to: Direction) -> Option<Turning> {
    match (from, to) {
        (Direction::Up, Direction::Left) | (Direction::Right, Direction::Down) => Some(
            Turning::Uptoleft,
        ),
        (Direction::Up, Direction::Right) | (Direction::Left, Direction::Down) => Some(
            Turning::Uptoright,
        ),
        (Direction::Down, Direction::Left) | (Direction::Right, Direction::Up) => Some(
            Turning::Downtoleft,
        ),
        (Direction::Down, Direction::Right) | (Direction::Left, Direction::Up) => Some(
            Turning::Downtoright,
        ),
        _ => None,
    }
}

/// Heading and turning marker after a request for `to`.
pub open spec fn after_turn(from: Direction, turning: Turning, to: Direction) -> (
    Direction,
    Turning,
) {
    if is_reversal(from, to) {
        (from, turning)
    } else {
        match corner_of(from, to) {
            Some(t) => (to, t),
            None => (to, turning),
        }
    }
}

/// The straight marker of a heading's axis.
pub open spec fn straight_for(d: Direction) -> Turning {
    match d {
        Direction::Up | Direction::Down => Turning::Keepvertical,
        Direction::Left | Direction::Right => Turning::Keephorizontal,
    }
}

/// The body segment drawn for a turning marker.
pub open spec fn body_cell(t: Turning) -> Cell {
    match t {
        Turning::Uptoleft => Cell::Uptoleft,
        Turning::Uptoright => Cell::Uptoright,
        Turning::Downtoleft => Cell::Downtoleft,
        Turning::Downtoright => Cell::Downtoright,
        Turning::Keephorizontal => Cell::Horizontal,
        Turning::Keepvertical => Cell::Vertical,
    }
}

/// The head drawn for a heading.
pub open spec fn head_cell(d: Direction) -> Cell {
    match d {
        Direction::Up => Cell::Headsup,
        Direction::Down => Cell::Headsdown,
        Direction::Left => Cell::Headsleft,
        Direction::Right => Cell::Headsright,
    }
}

/// The linear index one step from `index` in the flattened grid, unchecked.
pub open spec fn step_index(index: int, d: Direction, width: int) -> int {
    match d {
        Direction::Left => index - 1,
        Direction::Right => index + 1,
        Direction::Up => index - width,
        Direction::Down => index + width,
    }
}

/// Some segment, the two most recent ones left out, lies at `index`.
pub open spec fn collides(body: Seq<(usize, Cell)>, index: usize) -> bool {
    exists|i: int| 0 <= i < body.len() - 2 && body[i].0 == index
}

/// Some segment lies at `index`.
pub open spec fn occupied(body: Seq<(usize, Cell)>, index: usize) -> bool {
    exists|i: int| 0 <= i < body.len() && body[i].0 == index
}

/// What `advance` makes of a body: the tail goes unless the snake grows, the
/// old head takes the shape of `turning`, and a new head is appended.
pub open spec fn advanced_body(
    body: Seq<(usize, Cell)>,
    grows: bool,
    turning: Turning,
    new_head: (usize, Cell),
) -> Seq<(usize, Cell)> {
    let kept = if grows {
        body
    } else {
        body.drop_first()
    };
    kept.update(kept.len() - 1, (kept.last().0, body_cell(turning))).push(new_head)
}

/// The growth counter after one step: one tick of growth is spent, if any.
pub open spec fn spent(counter: u8) -> u8 {
    if counter > 0 {
        (counter - 1) as u8
    } else {
        0
    }
}

/// The body that a game starts with: five horizontal segments at indices 3
/// to 7, the head at 7.
pub open spec fn initial_body() -> Seq<(usize, Cell)> {
    seq![
        (3usize, Cell::Tail),
        (4usize, Cell::Horizontal),
        (5usize, Cell::Horizontal),
        (6usize, Cell::Horizontal),
        (7usize, Cell::Headsright),
    ]
}

/// A growth counter raised by `bonus`, held at the top of its range.
pub open spec fn raised(counter: u8, bonus: u8) -> u8 {
    if counter + bonus > 255 {
        255
    } else {
        (counter + bonus) as u8
    }
}

/// The snake: body segments from tail (first) to head (last), each a linear
/// index and the cell drawn there.
pub struct Snake {
    pub body: Vec<(usize, Cell)>,
    pub growth_counter: u8,
    pub direction: Direction,
    pub turning: Turning,
    pub head_symbol: Cell,
}

impl Snake {
    /// At least two segments; the last one, and only it, is a head.
    pub open spec fn wf(&self) -> bool {
        &&& self.body@.len() >= 2
        &&& is_head(self.body@.last().1)
        &&& forall|i: int| 0 <= i < self.body@.len() - 1 ==> !is_head(#[trigger] self.body@[i].1)
    }

    pub open spec fn head(&self) -> usize {
        self.body@.last().0
    }

    /// The next head index stays within `usize`.
    pub open spec fn can_advance(&self, board_width: usize) -> bool {
        let next = step_index(self.head() as int, self.direction, board_width as int);
        0 <= next <= usize::MAX
    }

    /// Five horizontal segments at indices 3 to 7, heading right.
    pub fn new() -> (r: Self)
        ensures
            r.wf(),
            r.body@ == initial_body(),
            r.growth_counter == 0,
            r.direction == Direction::Right,
            r.turning == Turning::Keephorizontal,
            r.head_symbol == Cell::Headsright,
    {
        let body = vec![
            (3usize, Cell::Tail),
            (4usize, Cell::Horizontal),
            (5usize, Cell::Horizontal),
            (6usize, Cell::Horizontal),
            (7usize, Cell::Headsright),
        ];
        let r = Snake {
            body,
            growth_counter: 0,
            direction: Direction::Right,
            turning: Turning::Keephorizontal,
            head_symbol: Cell::Headsright,
        };
        assert(r.body@ =~= initial_body());
        r
    }

    pub fn head_coordinate(&self) -> (r: usize)
        requires
            self.wf(),
        ensures
            r == self.head(),
    {
        self.body[self.body.len() - 1].0
    }

    /// Adds `bonus` ticks of growth; the counter stops at its maximum.
    pub fn set_growth_bonus(&mut self, bonus: u8)
        ensures
            final(self).growth_counter == raised(old(self).growth_counter, bonus),
            final(self).body == old(self).body,
            final(self).direction == old(self).direction,
            final(self).turning == old(self).turning,
            final(self).head_symbol == old(self).head_symbol,
    {
        if self.growth_counter > 255 - bonus {
            self.growth_counter = 255;
        } else {
            self.growth_counter = self.growth_counter + bonus;
        }
    }

    /// Heads towards `new_dir` unless that is a reversal, which is ignored; a
    /// quarter turn sets the matching corner marker.
    pub fn take_direction(&mut self, new_dir: Direction)
        ensures
            (final(self).direction, final(self).turning) == after_turn(
                old(self).direction,
                old(self).turning,
                new_dir,
            ),
            is_reversal(old(self).direction, new_dir) ==> final(self).direction == old(
                self,
            ).direction,
            !is_reversal(old(self).direction, new_dir) ==> final(self).direction == new_dir,
            final(self).body == old(self).body,
            final(self).growth_counter == old(self).growth_counter,
            final(self).head_symbol == old(self).head_symbol,
    {
        match (self.direction, new_dir) {
            (Direction::Up, Direction::Down) | (Direction::Down, Direction::Up) | (
                Direction::Left,
                Direction::Right,
            ) | (Direction::Right, Direction::Left) => {},
            (Direction::Up, Direction::Left) | (Direction::Right, Direction::Down) => {
                self.turning = Turning::Uptoleft;
                self.direction = new_dir;
            },
            (Direction::Up, Direction::Right) | (Direction::Left, Direction::Down) => {
                self.turning = Turning::Uptoright;
                self.direction = new_dir;
            },
            (Direction::Down, Direction::Left) | (Direction::Right, Direction::Up) => {
                self.turning = Turning::Downtoleft;
                self.direction = new_dir;
            },
            (Direction::Down, Direction::Right) | (Direction::Left, Direction::Up) => {
                self.turning = Turning::Downtoright;
                self.direction = new_dir;
            },
            _ => {
                self.direction = new_dir;
            },
        }
    }

    /// Moves the snake one cell along its heading. Indices are not checked
    /// against the board: that is the controller's part.
    pub fn advance(&mut self, board_width: usize)
        requires
            old(self).wf(),
            old(self).can_advance(board_width),
        ensures
            final(self).wf(),
            final(self).body@ == advanced_body(
                old(self).body@,
                old(self).growth_counter > 0,
                old(self).turning,
                (
                    step_index(
                        old(self).head() as int,
                        old(self).direction,
                        board_width as int,
                    ) as usize,
                    head_cell(old(self).direction),
                ),
            ),
            final(self).growth_counter == spent(old(self).growth_counter),
            old(self).growth_counter == 0 ==> final(self).body@.len() == old(self).body@.len()
                && final(self).growth_counter == 0,
            old(self).growth_counter > 0 ==> final(self).body@.len() == old(self).body@.len()
                + 1 && final(self).growth_counter == old(self).growth_counter - 1,
            final(self).head() == step_index(
                old(self).head() as int,
                old(self).direction,
                board_width as int,
            ),
            final(self).direction == old(self).direction,
            final(self).turning == old(self).turning,
            final(self).head_symbol == old(self).head_symbol,
    {
        let head = self.head_coordinate();
        if self.growth_counter == 0 {
            self.body.remove(0);
        } else {
            self.growth_counter = self.growth_counter - 1;
        }
        let last = self.body.len() - 1;
        let shape = match self.turning {
            Turning::Uptoleft => Cell::Uptoleft,
            Turning::Uptoright => Cell::Uptoright,
            Turning::Downtoleft => Cell::Downtoleft,
            Turning::Downtoright => Cell::Downtoright,
            Turning::Keephorizontal => Cell::Horizontal,
            Turning::Keepvertical => Cell::Vertical,
        };
        self.body.set(last, (head, shape));
        let new_head = match self.direction {
            Direction::Left => (head - 1, Cell::Headsleft),
            Direction::Right => (head + 1, Cell::Headsright),
            Direction::Up => (head - board_width, Cell::Headsup),
            Direction::Down => (head + board_width, Cell::Headsdown),
        };
        self.body.push(new_head);
        assert(self.body@ =~= advanced_body(
            old(self).body@,
            old(self).growth_counter > 0,
            old(self).turning,
            new_head,
        ));
    }

    /// Whether a segment other than the two most recent lies at the index.
    pub fn body_collides_with(&self, coordinate_to_check: usize) -> (r: bool)
        requires
            self.wf(),
        ensures
            r == collides(self.body@, coordinate_to_check),
    {
        let end = self.body.len() - 2;
        let mut index: usize = 0;
        while index < end
            invariant
                end == self.body@.len() - 2,
                index <= end,
                forall|i: int| 0 <= i < index ==> self.body@[i].0 != coordinate_to_check,
            decreases end - index,
        {
            if self.body[index].0 == coordinate_to_check {
                return true;
            }
            index = index + 1;
        }
        false
    }

    /// Whether any segment, head included, lies at the index.
    pub fn occupies(&self, index: usize) -> (r: bool)
        ensures
            r == occupied(self.body@, index),
    {
        let mut i: usize = 0;
        while i < self.body.len()
            invariant
                i <= self.body@.len(),
                forall|k: int| 0 <= k < i ==> self.body@[k].0 != index,
            decreases self.body@.len() - i,
        {
            if self.body[i].0 == index {
                return true;
            }
            i = i + 1;
        }
        false
    }
}

/// A request for the current heading changes neither heading nor marker, and
/// after the per-tick reset to the straight marker it leaves that marker.
pub proof fn lemma_same_direction_is_noop(d: Direction, t: Turning)
    ensures
        after_turn(d, t, d) == (d, t),
        after_turn(d, straight_for(d), d).1 == straight_for(d),
{
}

/// A reversal leaves the heading as it was; any other request is taken.
pub proof fn lemma_turn_takes_direction(from: Direction, t: Turning, to: Direction)
    ensures
        is_reversal(from, to) <==> (from == Direction::Up && to == Direction::Down) || (from
            == Direction::Down && to == Direction::Up) || (from == Direction::Left && to
            == Direction::Right) || (from == Direction::Right && to == Direction::Left),
        is_reversal(from, to) ==> after_turn(from, t, to) == (from, t),
        !is_reversal(from, to) ==> after_turn(from, t, to).0 == to,
{
}

/// A step keeps the length of a body that does not grow (it needs two
/// segments, one to drop and one to keep) and adds one segment to one that
/// grows; the growth counter keeps 0 and otherwise drops by one.
pub proof fn lemma_advance_length(
    body: Seq<(usize, Cell)>,
    grows: bool,
    turning: Turning,
    new_head: (usize, Cell),
    counter: u8,
)
    requires
        body.len() >= 1,
        grows || body.len() >= 2,
    ensures
        !grows ==> advanced_body(body, grows, turning, new_head).len() == body.len(),
        grows ==> advanced_body(body, grows, turning, new_head).len() == body.len() + 1,
        counter == 0 ==> spent(counter) == 0,
        counter > 0 ==> spent(counter) == counter - 1,
{
}

/// The head and the segment just behind it are never reported as a
/// collision: only the segments before them are looked at.
pub proof fn lemma_collision_skips_head_and_neck(body: Seq<(usize, Cell)>, index: usize)
    requires
        body.len() >= 2,
    ensures
        collides(body, index) == occupied(body.subrange(0, body.len() - 2), index),
        (forall|i: int| 0 <= i < body.len() - 2 ==> body[i].0 != index) ==> !collides(
            body,
            index,
        ),
{
    let pre = body.subrange(0, body.len() - 2);
    if collides(body, index) {
        let i = choose|i: int| 0 <= i < body.len() - 2 && body[i].0 == index;
        assert(pre[i].0 == index);
    }
    if occupied(pre, index) {
        let i = choose|i: int| 0 <= i < pre.len() && pre[i].0 == index;
        assert(body[i].0 == index);
    }
}

} // verus!
