//! The transition logic of the simulation: starting a round, queueing a
//! direction change, and advancing one tick.

use vstd::prelude::*;

use rand::Rng;

use crate::state::Direction;
use crate::state::GameState;
use crate::state::GridPos;

verus! {

/// How many random cells a food placement may draw before it gives up and
/// keeps the last draw.
pub const FOOD_ATTEMPTS: usize = 100;

/// The outcome of one simulation tick.
#[derive(Debug, Copy, Clone, Eq, PartialEq, Structural)]
pub enum StepResult {
    Moved,
    Ate,
    GameOver,
}

/// The cell one step away from `head` in the given direction, as a
/// mathematical function (`Up` raises `y`, `Right` raises `x`).
pub open spec fn spec_next_position(head: GridPos, direction: Direction) -> GridPos {
    match direction {
        Direction::Up => GridPos { x: head.x, y: (head.y + 1) as i32 },
        Direction::Down => GridPos { x: head.x, y: (head.y - 1) as i32 },
        Direction::Left => GridPos { x: (head.x - 1) as i32, y: head.y },
        Direction::Right => GridPos { x: (head.x + 1) as i32, y: head.y },
    }
}

/// The cell the head of `s` will try to move into on the next step, once the
/// queued direction is committed.
pub open spec fn step_target(s: GameState) -> GridPos {
    spec_next_position(s.snake@[0], s.pending_direction)
}

/// The next step of `s` would run off the grid.
pub open spec fn hits_wall(s: GameState) -> bool {
    !s.on_grid(step_target(s))
}

/// The next step of `s` lands on the food cell.
pub open spec fn eats_food(s: GameState) -> bool {
    step_target(s) == s.food
}

/// The next step of `s` collides with the body. A body cell is safe to move
/// into only when it is exactly the tail cell about to vacate on a
/// non-growing move; eating suppresses that exception, because on a growing
/// move the tail stays put.
pub open spec fn hits_body(s: GameState) -> bool {
    s.snake@.contains(step_target(s)) && (eats_food(s) || s.snake@.last() != step_target(s))
}

/// The next step of `s` kills the snake, by wall or by body.
pub open spec fn step_dies(s: GameState) -> bool {
    hits_wall(s) || hits_body(s)
}

/// The queued direction after a request: the request is taken unless it is
/// the exact reverse of the direction already queued, in which case the
/// queue keeps its previous value.
pub open spec fn accepted_direction(queued: Direction, requested: Direction) -> Direction {
    if requested == queued.opposite() {
        queued
    } else {
        requested
    }
}

/// Reversal is always rejected: whatever direction is queued, no single
/// request can leave the queue holding the reverse of what it held before.
/// In particular, while the queue still holds the committed direction, the
/// next step can never commit the reverse of the current direction.
pub proof fn lemma_reversal_rejected(queued: Direction, requested: Direction)
    ensures
        accepted_direction(queued, requested) != queued.opposite(),
{
    crate::state::lemma_opposite_involution(queued);
}

/// The score after eating: one more, saturating at the counter's maximum.
pub open spec fn bumped_score(score: u32) -> u32 {
    if score == u32::MAX {
        u32::MAX
    } else {
        (score + 1) as u32
    }
}

/// Whether every drawn candidate cell lies on the snake body, so that food
/// placement has to fall back to its final draw.
pub open spec fn all_draws_blocked(snake: Seq<GridPos>, draws: Seq<GridPos>) -> bool {
    forall|i: int| 0 <= i < draws.len() ==> snake.contains(#[trigger] draws[i])
}

/// The cell one step away from `head` in the given direction.
pub fn next_position(head: GridPos, direction: Direction) -> (r: GridPos)
    requires
        direction == Direction::Up ==> head.y < i32::MAX,
        direction == Direction::Down ==> i32::MIN < head.y,
        direction == Direction::Left ==> i32::MIN < head.x,
        direction == Direction::Right ==> head.x < i32::MAX,
    ensures
        r == spec_next_position(head, direction),
{
    match direction {
        Direction::Up => GridPos { x: head.x, y: head.y + 1 },
        Direction::Down => GridPos { x: head.x, y: head.y - 1 },
        Direction::Left => GridPos { x: head.x - 1, y: head.y },
        Direction::Right => GridPos { x: head.x + 1, y: head.y },
    }
}

/// Whether `p` occurs among the cells of `v`.
fn contains_pos(v: &Vec<GridPos>, p: GridPos) -> (b: bool)
    ensures
        b == v@.contains(p),
{
    let mut i: usize = 0;
    while i < v.len()
        invariant
            i <= v@.len(),
            forall|j: int| 0 <= j < i ==> v@[j] != p,
        decreases v@.len() - i,
    {
        if v[i] == p {
            return true;
        }
        i += 1;
    }
    false
}

/// Relies on `rand::thread_rng` and `rand::Rng::gen_range` over the range
/// `0..bound`: the sample always lies in that half-open range, and the call
/// does not panic because the range is non-empty.
#[verifier::external_body]
fn random_coordinate(bound: i32) -> (r: i32)
    requires
        1 <= bound,
    ensures
        0 <= r < bound,
{
    rand::thread_rng().gen_range(0..bound)
}

/// Picks the food cell from a sequence of randomly drawn candidate cells:
/// the first draw that does not lie on the body wins; if every draw lies on
/// the body, the final draw is kept even though it overlaps the body. This
/// is the bounded-retry fallback of food placement: the placement never
/// searches the grid exhaustively.
pub fn select_food(snake: &Vec<GridPos>, draws: &Vec<GridPos>) -> (r: GridPos)
    requires
        1 <= draws@.len(),
    ensures
        draws@.contains(r),
        !all_draws_blocked(snake@, draws@) ==> !snake@.contains(r),
        !all_draws_blocked(snake@, draws@) ==> exists|i: int|
            {
                &&& 0 <= i < draws@.len()
                &&& r == draws@[i]
                &&& !snake@.contains(draws@[i])
                &&& forall|j: int| 0 <= j < i ==> snake@.contains(#[trigger] draws@[j])
            },
        all_draws_blocked(snake@, draws@) ==> r == draws@.last(),
{
    let mut i: usize = 0;
    while i < draws.len()
        invariant
            i <= draws@.len(),
            forall|j: int| 0 <= j < i ==> snake@.contains(#[trigger] draws@[j]),
        decreases draws@.len() - i,
    {
        if !contains_pos(snake, draws[i]) {
            return draws[i];
        }
        i += 1;
    }
    draws[draws.len() - 1]
}

/// Draws up to [`FOOD_ATTEMPTS`] random cells of the grid and places the
/// food on the first one that is free of the body, falling back to the last
/// draw when every attempt is blocked.
fn spawn_food(state: &GameState) -> (r: GridPos)
    requires
        1 <= state.grid_width,
        1 <= state.grid_height,
    ensures
        state.on_grid(r),
{
    let mut draws: Vec<GridPos> = Vec::new();
    let mut i: usize = 0;
    while i < FOOD_ATTEMPTS
        invariant
            draws@.len() == i,
            1 <= state.grid_width,
            1 <= state.grid_height,
            forall|j: int| 0 <= j < draws@.len() ==> state.on_grid(#[trigger] draws@[j]),
        decreases FOOD_ATTEMPTS - i,
    {
        let cell = GridPos {
            x: random_coordinate(state.grid_width),
            y: random_coordinate(state.grid_height),
        };
        draws.push(cell);
        i += 1;
    }
    select_food(&state.snake, &draws)
}

/// Starts a round on a `grid_width` by `grid_height` grid: a single-segment
/// body at the grid center, both directions `Right`, score zero, alive, and
/// the food placed at random away from the body (up to the bounded-retry
/// fallback).
pub fn new_game(grid_width: i32, grid_height: i32) -> (s: GameState)
    requires
        1 <= grid_width,
        1 <= grid_height,
    ensures
        s.wf(),
        s.grid_width == grid_width,
        s.grid_height == grid_height,
        s.snake@.len() == 1,
        s.snake@[0] == (GridPos { x: (grid_width / 2) as i32, y: (grid_height / 2) as i32 }),
        s.direction == Direction::Right,
        s.pending_direction == Direction::Right,
        s.score == 0,
        s.alive,
{
    let start = GridPos { x: grid_width / 2, y: grid_height / 2 };
    let mut snake: Vec<GridPos> = Vec::new();
    snake.push(start);
    let mut state = GameState {
        grid_width,
        grid_height,
        snake,
        direction: Direction::Right,
        pending_direction: Direction::Right,
        food: start,
        score: 0,
        alive: true,
    };
    state.food = spawn_food(&state);
    state
}

/// Queues a direction change for the next step. A request for the exact
/// reverse of the direction already queued is rejected, so the snake can
/// never be turned straight back into its own neck; any other request
/// replaces the queued value (queueing depth is one, not a list of moves).
pub fn set_direction(state: &mut GameState, direction: Direction)
    ensures
        final(state).pending_direction == accepted_direction(
            old(state).pending_direction,
            direction,
        ),
        final(state).pending_direction != old(state).pending_direction.opposite(),
        final(state).grid_width == old(state).grid_width,
        final(state).grid_height == old(state).grid_height,
        final(state).snake == old(state).snake,
        final(state).direction == old(state).direction,
        final(state).food == old(state).food,
        final(state).score == old(state).score,
        final(state).alive == old(state).alive,
        old(state).wf() ==> final(state).wf(),
{
    proof {
        lemma_reversal_rejected(state.pending_direction, direction);
    }
    if !(direction == state.pending_direction.opposite()) {
        state.pending_direction = direction;
    }
}

/// Advances the simulation by one tick.
///
/// A dead game is left untouched and keeps returning `GameOver`. Otherwise
/// the queued direction is committed, the head tries to move one cell that
/// way, and the step either runs off the grid or into the body (the round
/// ends), eats the food (the body grows by one, the score rises by one, and
/// the food is placed anew), or simply moves (the tail vacates).
pub fn step(state: &mut GameState) -> (r: StepResult)
    requires
        old(state).wf(),
    ensures
        final(state).wf(),
        final(state).grid_width == old(state).grid_width,
        final(state).grid_height == old(state).grid_height,
        !old(state).alive ==> r == StepResult::GameOver && *final(state) == *old(state),
        final(state).alive ==> old(state).alive,
        old(state).alive ==> {
            &&& final(state).direction == old(state).pending_direction
            &&& final(state).pending_direction == old(state).pending_direction
        },
        old(state).alive && step_dies(*old(state)) ==> {
            &&& r == StepResult::GameOver
            &&& !final(state).alive
            &&& final(state).snake == old(state).snake
            &&& final(state).food == old(state).food
            &&& final(state).score == old(state).score
        },
        old(state).alive && hits_wall(*old(state)) ==> r == StepResult::GameOver
            && !final(state).alive,
        old(state).alive && !step_dies(*old(state)) && eats_food(*old(state)) ==> {
            &&& r == StepResult::Ate
            &&& final(state).alive
            &&& final(state).snake@ == seq![step_target(*old(state))] + old(state).snake@
            &&& final(state).score == bumped_score(old(state).score)
        },
        old(state).alive && !step_dies(*old(state)) && !eats_food(*old(state)) ==> {
            &&& r == StepResult::Moved
            &&& final(state).alive
            &&& final(state).snake@ == seq![step_target(*old(state))]
                + old(state).snake@.drop_last()
            &&& final(state).score == old(state).score
            &&& final(state).food == old(state).food
        },
        final(state).score >= old(state).score,
        r == StepResult::Ate ==> final(state).snake@.len() == old(state).snake@.len() + 1,
        r == StepResult::Moved ==> final(state).snake@.len() == old(state).snake@.len(),
        r == StepResult::Ate && old(state).score < u32::MAX ==> final(state).score
            == old(state).score + 1,
{
    if !state.alive {
        return StepResult::GameOver;
    }
    state.direction = state.pending_direction;
    let head = state.snake[0];
    let next = next_position(head, state.direction);
    if next.x < 0 || next.x >= state.grid_width || next.y < 0 || next.y >= state.grid_height {
        state.alive = false;
        return StepResult::GameOver;
    }
    let tail = state.snake[state.snake.len() - 1];
    let body_hit = contains_pos(&state.snake, next);
    let is_food = next == state.food;
    if body_hit && (is_food || !(tail == next)) {
        state.alive = false;
        return StepResult::GameOver;
    }
    state.snake.insert(0, next);
    if is_food {
        state.score = state.score.saturating_add(1);
        let food = spawn_food(state);
        state.food = food;
        StepResult::Ate
    } else {
        state.snake.pop();
        StepResult::Moved
    }
}

} // verus!
