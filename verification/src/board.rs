//! The board, the positions on it and the four ways to move.

use vstd::prelude::*;

verus! {

/// The largest value a coordinate may take; the smallest is zero.
pub const BOARD_MAX: u8 = 8;

/// A place on the board: a column and a row.
#[derive(Clone, Copy, Debug, PartialEq, Eq, Structural)]
pub struct Position {
    pub col: u8,
    pub row: u8,
}

/// One step along one axis.
#[derive(Clone, Copy, Debug, PartialEq, Eq, Structural)]
pub enum Direction {
    Left,
    Right,
    Up,
    Down,
}

impl Direction {
    /// The direction that undoes this one.
    pub open spec fn opposite(self) -> Direction {
        match self {
            Direction::Left => Direction::Right,
            Direction::Right => Direction::Left,
            Direction::Up => Direction::Down,
            Direction::Down => Direction::Up,
        }
    }
}

impl Position {
    /// Both coordinates lie on the board.
    pub open spec fn in_bounds(self) -> bool {
        self.col <= BOARD_MAX && self.row <= BOARD_MAX
    }

    /// The place one step away in direction `dir`. A step to the left or
    /// up is refused at zero, one to the right or down at the board's
    /// maximum; a refused step is `None`.
    pub open spec fn step(self, dir: Direction) -> Option<Position> {
        match dir {
            Direction::Left => if self.col > 0 {
                Some(Position { col: (self.col - 1) as u8, row: self.row })
            } else {
                None
            },
            Direction::Right => if self.col < BOARD_MAX {
                Some(Position { col: (self.col + 1) as u8, row: self.row })
            } else {
                None
            },
            Direction::Up => if self.row > 0 {
                Some(Position { col: self.col, row: (self.row - 1) as u8 })
            } else {
                None
            },
            Direction::Down => if self.row < BOARD_MAX {
                Some(Position { col: self.col, row: (self.row + 1) as u8 })
            } else {
                None
            },
        }
    }

    /// Makes a position from a column and a row, whatever their values.
    pub fn new(col: u8, row: u8) -> (p: Position)
        ensures
            p.col == col,
            p.row == row,
    {
        Position { col, row }
    }

    /// Tells whether both coordinates lie on the board.
    pub fn is_in_bounds(&self) -> (b: bool)
        ensures
            b == self.in_bounds(),
    {
        self.col <= BOARD_MAX && self.row <= BOARD_MAX
    }

    /// Takes one step in direction `dir`. From a place on the board the
    /// step is refused, with `None`, exactly where it would leave the
    /// board.
    pub fn stepped(&self, dir: Direction) -> (next: Option<Position>)
        ensures
            next == self.step(dir),
    {
        match dir {
            Direction::Left => if self.col > 0 {
                Some(Position { col: self.col - 1, row: self.row })
            } else {
                None
            },
            Direction::Right => if self.col < BOARD_MAX {
                Some(Position { col: self.col + 1, row: self.row })
            } else {
                None
            },
            Direction::Up => if self.row > 0 {
                Some(Position { col: self.col, row: self.row - 1 })
            } else {
                None
            },
            Direction::Down => if self.row < BOARD_MAX {
                Some(Position { col: self.col, row: self.row + 1 })
            } else {
                None
            },
        }
    }

    /// The value that the coordinate along `dir` would take after one step,
    /// as a number that may fall off either end of the board.
    pub open spec fn target(self, dir: Direction) -> int {
        match dir {
            Direction::Left => self.col - 1,
            Direction::Right => self.col + 1,
            Direction::Up => self.row - 1,
            Direction::Down => self.row + 1,
        }
    }

    /// From a place on the board, a step is taken exactly where the
    /// coordinate it changes stays between zero and the board's maximum.
    pub proof fn lemma_step_iff_target_on_board(self, dir: Direction)
        requires
            self.in_bounds(),
        ensures
            self.step(dir) is Some <==> 0 <= self.target(dir) <= BOARD_MAX,
    {
    }

    /// A step changes one coordinate by one and leaves the other alone:
    /// left and right change the column, up and down the row.
    pub proof fn lemma_step_moves_one(self, dir: Direction)
        requires
            self.step(dir) is Some,
        ensures
            ({
                let next = self.step(dir).unwrap();
                match dir {
                    Direction::Left => next.col == self.col - 1 && next.row == self.row,
                    Direction::Right => next.col == self.col + 1 && next.row == self.row,
                    Direction::Up => next.col == self.col && next.row == self.row - 1,
                    Direction::Down => next.col == self.col && next.row == self.row + 1,
                }
            }),
    {
    }

    /// A step from a place on the board ends on the board.
    pub proof fn lemma_step_stays_on_board(self, dir: Direction)
        requires
            self.in_bounds(),
            self.step(dir) is Some,
        ensures
            self.step(dir).unwrap().in_bounds(),
    {
    }

    /// A step can be taken back: the opposite step from where it ends
    /// leads to where it began.
    pub proof fn lemma_step_back(self, dir: Direction)
        requires
            self.in_bounds(),
            self.step(dir) is Some,
        ensures
            self.step(dir).unwrap().step(dir.opposite()) == Some(self),
    {
    }
}

} // verus!
