//! The data model of the simulation: directions, grid cells, and the state
//! of one game round.

use vstd::prelude::*;

verus! {

/// One of the four cardinal movement directions on the grid. The grid is
/// oriented with `y` increasing upward, so `Up` raises `y` by one.
#[derive(Debug, Copy, Clone, Eq, PartialEq, Structural)]
pub enum Direction {
    Up,
    Down,
    Left,
    Right,
}

impl Direction {
    /// The direction pointing the opposite way, as a mathematical function.
    pub open spec fn spec_opposite(self) -> Direction {
        match self {
            Direction::Up => Direction::Down,
            Direction::Down => Direction::Up,
            Direction::Left => Direction::Right,
            Direction::Right => Direction::Left,
        }
    }

    /// The direction pointing the opposite way.
    #[verifier::when_used_as_spec(spec_opposite)]
    pub fn opposite(self) -> (r: Self)
        ensures
            r == self.spec_opposite(),
    {
        match self {
            Self::Up => Self::Down,
            Self::Down => Self::Up,
            Self::Left => Self::Right,
            Self::Right => Self::Left,
        }
    }
}

/// Taking the opposite direction is an involution, and no direction is its
/// own opposite.
pub proof fn lemma_opposite_involution(d: Direction)
    ensures
        d.opposite().opposite() == d,
        d.opposite() != d,
{
}

/// A cell of the grid, addressed by an integer coordinate pair. The type
/// itself carries no bounds; the simulation keeps every live cell inside
/// its grid.
#[derive(Debug, Copy, Clone, Eq, PartialEq, Structural)]
pub struct GridPos {
    pub x: i32,
    pub y: i32,
}

/// The whole state of one game round.
///
/// The snake body is ordered with the head at index 0 and the tail at the
/// last index, and is never empty. `direction` is the direction applied on
/// the most recently completed step; `pending_direction` is the single
/// queued input that the next step will commit.
#[derive(Debug, Clone)]
pub struct GameState {
    pub grid_width: i32,
    pub grid_height: i32,
    pub snake: Vec<GridPos>,
    pub direction: Direction,
    pub pending_direction: Direction,
    pub food: GridPos,
    pub score: u32,
    pub alive: bool,
}

impl GameState {
    /// Whether `p` lies on this game's grid: `0 <= x < grid_width` and
    /// `0 <= y < grid_height`.
    pub open spec fn on_grid(self, p: GridPos) -> bool {
        0 <= p.x < self.grid_width && 0 <= p.y < self.grid_height
    }

    /// Well-formedness of a round: the grid has positive extent, the body
    /// has at least one segment, and every body cell and the food cell lie
    /// on the grid.
    pub open spec fn wf(self) -> bool {
        &&& 1 <= self.grid_width
        &&& 1 <= self.grid_height
        &&& 1 <= self.snake@.len()
        &&& forall|i: int| 0 <= i < self.snake@.len() ==> self.on_grid(#[trigger] self.snake@[i])
        &&& self.on_grid(self.food)
    }
}

} // verus!
