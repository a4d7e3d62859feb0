//! The board and the steps a token can take on it.

use vstd::prelude::*;

verus! {

/// Number of columns of the board.
pub const GRID_SIZE_X: i32 = 8;

/// Number of rows of the board.
pub const GRID_SIZE_Y: i32 = 12;

/// A cell coordinate.  Cells of the board satisfy [`GridPos::in_bounds`];
/// other values can arise from unchecked level data and are handled, not
/// rejected.
#[derive(Copy, Clone, PartialEq, Eq, Structural, Debug)]
pub struct GridPos {
    pub x: i32,
    pub y: i32,
}

/// One of the four directions of travel.
#[derive(Copy, Clone, PartialEq, Eq, Structural, Debug)]
pub enum Direction {
    Up,
    Left,
    Down,
    Right,
}

/// The directional keys that went down since the previous frame.
#[derive(Copy, Clone, PartialEq, Eq, Structural, Debug)]
pub struct KeyEdges {
    pub up: bool,
    pub left: bool,
    pub down: bool,
    pub right: bool,
}

impl Direction {
    /// Change of the column when travelling one cell this way.
    pub open spec fn dx(self) -> int {
        match self {
            Direction::Left => -1,
            Direction::Right => 1,
            _ => 0,
        }
    }

    /// Change of the row when travelling one cell this way.
    pub open spec fn dy(self) -> int {
        match self {
            Direction::Up => 1,
            Direction::Down => -1,
            _ => 0,
        }
    }
}

impl KeyEdges {
    /// The single direction that a set of key edges stands for: the first one
    /// pressed in the order up, left, down, right.
    pub open spec fn chosen(self) -> Option<Direction> {
        if self.up {
            Some(Direction::Up)
        } else if self.left {
            Some(Direction::Left)
        } else if self.down {
            Some(Direction::Down)
        } else if self.right {
            Some(Direction::Right)
        } else {
            None
        }
    }

    /// Picks the direction to honour for this frame.
    pub fn direction(&self) -> (d: Option<Direction>)
        ensures
            d == self.chosen(),
    {
        if self.up {
            Some(Direction::Up)
        } else if self.left {
            Some(Direction::Left)
        } else if self.down {
            Some(Direction::Down)
        } else if self.right {
            Some(Direction::Right)
        } else {
            None
        }
    }
}

/// Column `x` and row `y` name a cell of the board.
pub open spec fn on_board(x: int, y: int) -> bool {
    0 <= x < GRID_SIZE_X && 0 <= y < GRID_SIZE_Y
}

impl GridPos {
    /// The cell lies on the board.
    pub open spec fn in_bounds(self) -> bool {
        on_board(self.x as int, self.y as int)
    }

    /// No wall blocks a step in direction `dir`: the coordinate that the step
    /// changes has not reached the edge it moves towards.
    pub open spec fn can_step(self, dir: Direction) -> bool {
        match dir {
            Direction::Up => self.y < GRID_SIZE_Y - 1,
            Direction::Left => self.x > 0,
            Direction::Down => self.y > 0,
            Direction::Right => self.x < GRID_SIZE_X - 1,
        }
    }

    /// The neighbouring cell in direction `dir`.
    pub open spec fn neighbour(self, dir: Direction) -> (int, int) {
        (self.x + dir.dx(), self.y + dir.dy())
    }

    /// The neighbouring cell in direction `dir` lies off the board: a token
    /// on the board at `self` has a wall in that direction.
    pub open spec fn faces_wall(self, dir: Direction) -> bool {
        !on_board(self.neighbour(dir).0, self.neighbour(dir).1)
    }

    /// Where a token at `self` stands after trying to step in direction `dir`.
    pub open spec fn stepped(self, dir: Direction) -> GridPos {
        if self.can_step(dir) {
            GridPos { x: self.neighbour(dir).0 as i32, y: self.neighbour(dir).1 as i32 }
        } else {
            self
        }
    }

    /// Tries to step one cell in direction `dir`; reports whether the token
    /// moved.  A blocked step changes nothing.
    pub fn step(&mut self, dir: Direction) -> (moved: bool)
        ensures
            *final(self) == old(self).stepped(dir),
            moved == old(self).can_step(dir),
            moved == (*final(self) != *old(self)),
            old(self).in_bounds() ==> final(self).in_bounds(),
            old(self).in_bounds() && old(self).faces_wall(dir) ==> !moved && *final(self) == *old(
                self,
            ),
    {
        match dir {
            Direction::Up => {
                if self.y < GRID_SIZE_Y - 1 {
                    self.y = self.y + 1;
                    return true;
                }
            },
            Direction::Left => {
                if self.x > 0 {
                    self.x = self.x - 1;
                    return true;
                }
            },
            Direction::Down => {
                if self.y > 0 {
                    self.y = self.y - 1;
                    return true;
                }
            },
            Direction::Right => {
                if self.x < GRID_SIZE_X - 1 {
                    self.x = self.x + 1;
                    return true;
                }
            },
        }
        false
    }
}

/// A step never leaves the board.
pub proof fn lemma_step_stays_on_board(pos: GridPos, dir: Direction)
    requires
        pos.in_bounds(),
    ensures
        pos.stepped(dir).in_bounds(),
{
}

/// On the board a step into a wall is not taken and leaves the position as
/// it was; any other step is taken and leads to the neighbouring cell.
pub proof fn lemma_wall_blocks_step(pos: GridPos, dir: Direction)
    requires
        pos.in_bounds(),
    ensures
        pos.faces_wall(dir) ==> !pos.can_step(dir) && pos.stepped(dir) == pos,
        !pos.faces_wall(dir) ==> pos.can_step(dir) && pos.stepped(dir).x == pos.neighbour(dir).0
            && pos.stepped(dir).y == pos.neighbour(dir).1,
{
}

/// The cells of the board, column by column and from the bottom row up.
pub open spec fn board() -> Seq<GridPos> {
    Seq::new(
        (GRID_SIZE_X * GRID_SIZE_Y) as nat,
        |k: int| GridPos { x: (k / GRID_SIZE_Y as int) as i32, y: (k % GRID_SIZE_Y as int) as i32 },
    )
}

/// Lists the cells of the board, for laying the floor.
pub fn board_cells() -> (cells: Vec<GridPos>)
    ensures
        cells@ == board(),
        forall|k: int| 0 <= k < cells@.len() ==> (#[trigger] cells@[k]).in_bounds(),
{
    let mut cells: Vec<GridPos> = Vec::new();
    let mut x: i32 = 0;
    while x < GRID_SIZE_X
        invariant
            0 <= x <= GRID_SIZE_X,
            cells@ == board().take(x * GRID_SIZE_Y),
        decreases GRID_SIZE_X - x,
    {
        let mut y: i32 = 0;
        while y < GRID_SIZE_Y
            invariant
                0 <= x < GRID_SIZE_X,
                0 <= y <= GRID_SIZE_Y,
                cells@ == board().take(x * GRID_SIZE_Y + y),
            decreases GRID_SIZE_Y - y,
        {
            cells.push(GridPos { x, y });
            y = y + 1;
        }
        x = x + 1;
    }
    cells
}

} // verus!
