use crate::snake::{step_index, Direction};
use vstd::prelude::*;

verus! {

/// Row of a linear index on a board `width` cells wide.
pub open spec fn row_of(index: int, width: int) -> int {
    index / width
}

/// Column of a linear index on a board `width` cells wide.
pub open spec fn col_of(index: int, width: int) -> int {
    index % width
}

/// Linear index of a (row, column) position.
pub open spec fn index_of(row: int, col: int, width: int) -> int {
    row * width + col
}

/// The cell next to `index` in direction `d`, if it lies on the board.
pub open spec fn neighbour_spec(index: int, d: Direction, width: int, height: int) -> Option<int> {
    let row = row_of(index, width);
    let col = col_of(index, width);
    match d {
        Direction::Up => if row > 0 {
            Some(index_of(row - 1, col, width))
        } else {
            None
        },
        Direction::Down => if row + 1 < height {
            Some(index_of(row + 1, col, width))
        } else {
            None
        },
        Direction::Left => if col > 0 {
            Some(index_of(row, col - 1, width))
        } else {
            None
        },
        Direction::Right => if col + 1 < width {
            Some(index_of(row, col + 1, width))
        } else {
            None
        },
    }
}

/// The cell next to `index` in direction `d`, or `None` where that step
/// crosses a wall.
pub fn neighbour(index: usize, d: Direction, width: usize, height: usize) -> (r: Option<usize>)
    requires
        width >= 1,
        index < width * height,
        width * height <= usize::MAX,
    ensures
        r matches Some(n) ==> Some(n as int) == neighbour_spec(index as int, d, width as int, height as int)
            && n < width * height && n == step_index(index as int, d, width as int),
        r is None ==> neighbour_spec(index as int, d, width as int, height as int) is None,
{
    let row = index / width;
    let col = index % width;
    proof {
        let (w, h, i) = (width as int, height as int, index as int);
        assert(i == row * w + col) by (nonlinear_arith)
            requires w >= 1, row == i / w, col == i % w;
        assert(row < h) by (nonlinear_arith)
            requires w >= 1, i < w * h, row == i / w, i == row * w + col, col >= 0;
        assert(col < w) by (nonlinear_arith)
            requires w >= 1, col == i % w;
        assert((row + 1) * w + col == i + w) by (nonlinear_arith)
            requires i == row * w + col;
        assert((row - 1) * w + col == i - w) by (nonlinear_arith)
            requires i == row * w + col;
        assert(row + 1 < h ==> i + w < w * h) by (nonlinear_arith)
            requires i == row * w + col, col < w, w >= 1;
        assert(i + 1 < w * h || col + 1 >= w) by (nonlinear_arith)
            requires i == row * w + col, col < w, row < h, w >= 1, row >= 0;
        assert(row > 0 ==> i >= w) by (nonlinear_arith)
            requires i == row * w + col, col >= 0, w >= 1, row >= 0;
    }
    match d {
        Direction::Up => if row > 0 {
            Some(index - width)
        } else {
            None
        },
        Direction::Down => if row + 1 < height {
            Some(index + width)
        } else {
            None
        },
        Direction::Left => if col > 0 {
            Some(index - 1)
        } else {
            None
        },
        Direction::Right => if col + 1 < width {
            Some(index + 1)
        } else {
            None
        },
    }
}

} // verus!
