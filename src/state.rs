use vstd::prelude::*;
use crate::config::{MAX_ROW_BLOCKS, STACK_LIMIT, TOP_ROW_Y, WINDOW_WIDTH};
use crate::sprite::in_field;

verus! {

/// The screen that decides which update runs on a tick.
#[derive(Clone, Copy, PartialEq, Eq, Structural, Debug)]
pub enum Screen {
    Title,
    BlockPlay,
    BlockSetup,
    BlockGameOver,
    SpacePlay,
    SpaceSetup,
    SpaceGameOver,
}

/// Where the current row of the block game is in its cycle.
#[derive(Clone, Copy, PartialEq, Eq, Structural, Debug)]
pub enum BlockPhase {
    /// A new row is placed at the top on the next tick.
    Spawning,
    /// The row slides from side to side until the drop key is pressed.
    Oscillating,
    /// The row sinks onto the stack.
    Falling,
}

/// One of the three bullet slots of the shooter game.
#[derive(Clone, Copy, PartialEq, Eq, Structural, Debug)]
pub struct Bullet {
    pub x: i64,
    pub y: i64,
    pub moving: bool,
}

/// Which keys are held during one tick.
#[derive(Clone, Copy, PartialEq, Eq, Structural, Debug)]
pub struct InputSnapshot {
    pub escape: bool,
    pub key1: bool,
    pub key2: bool,
    pub key3: bool,
    pub a: bool,
    pub b: bool,
    pub c: bool,
    pub left: bool,
    pub right: bool,
    pub space: bool,
}

/// Everything the simulation keeps between ticks.
#[derive(Clone, Copy, PartialEq, Eq, Structural, Debug)]
pub struct GameState {
    pub screen: Screen,
    /// Difficulty chosen on the setup screen: 1, 2 or 3.
    pub game_mode: u32,
    pub level: u32,
    pub speed: u32,
    pub running: bool,
    pub phase: BlockPhase,
    /// Direction of the oscillating row or target: false moves right, true moves left.
    pub direction: bool,
    /// Rows that have landed in this round.
    pub num_stacked: u32,
    /// Width, in unit blocks, of the next row; shrinks as blocks are trimmed.
    pub drop_sprite_blocks: u32,
    /// Pool slots taken by the rows of this round.
    pub sprites_used: usize,
    /// First pool slot of the current row.
    pub row_start: usize,
    pub left_border: i64,
    pub right_border: i64,
    pub score: u32,
    pub cur_x: i64,
    pub cur_y: i64,
    pub target_x: i64,
    pub target_y: i64,
    pub bullet1: Bullet,
    pub bullet2: Bullet,
    pub bullet3: Bullet,
    /// Bullets in flight.
    pub bullet_count: usize,
}

pub open spec fn idle_bullet() -> Bullet {
    Bullet { x: 0, y: 0, moving: false }
}

/// The state every new game starts from, with the given difficulty kept.
pub open spec fn fresh_state(mode: u32) -> GameState {
    GameState {
        screen: Screen::Title,
        game_mode: mode,
        level: 1,
        speed: 4,
        running: true,
        phase: BlockPhase::Spawning,
        direction: false,
        num_stacked: 0,
        drop_sprite_blocks: 5,
        sprites_used: 0,
        row_start: 0,
        left_border: 0,
        right_border: 1080,
        score: 0,
        cur_x: (WINDOW_WIDTH / 2) as i64,
        cur_y: 0,
        target_x: 500,
        target_y: TOP_ROW_Y,
        bullet1: idle_bullet(),
        bullet2: idle_bullet(),
        bullet3: idle_bullet(),
        bullet_count: 0,
    }
}

/// The state with which a new game starts, with the given difficulty kept.
pub fn fresh(mode: u32) -> (r: GameState)
    ensures
        r == fresh_state(mode),
{
    GameState {
        screen: Screen::Title,
        game_mode: mode,
        level: 1,
        speed: 4,
        running: true,
        phase: BlockPhase::Spawning,
        direction: false,
        num_stacked: 0,
        drop_sprite_blocks: 5,
        sprites_used: 0,
        row_start: 0,
        left_border: 0,
        right_border: 1080,
        score: 0,
        cur_x: WINDOW_WIDTH / 2,
        cur_y: 0,
        target_x: 500,
        target_y: TOP_ROW_Y,
        bullet1: Bullet { x: 0, y: 0, moving: false },
        bullet2: Bullet { x: 0, y: 0, moving: false },
        bullet3: Bullet { x: 0, y: 0, moving: false },
        bullet_count: 0,
    }
}

/// The state of a process that has just started: the title screen, easiest difficulty.
pub fn init_game_state() -> (r: GameState)
    ensures
        r == fresh_state(1),
        state_ok(r),
{
    fresh(1)
}

pub open spec fn bullet_ok(b: Bullet) -> bool {
    in_field(b.x as int) && in_field(b.y as int)
}

/// Number of bullets in flight.
pub open spec fn moving_count(gs: GameState) -> int {
    (if gs.bullet1.moving { 1int } else { 0int }) + (if gs.bullet2.moving { 1int } else { 0int })
        + (if gs.bullet3.moving { 1int } else { 0int })
}

/// The slots of the block game fit the pool: each landed row took at most
/// `MAX_ROW_BLOCKS` slots, and the current row lies between `row_start` and `sprites_used`.
pub open spec fn block_slots_ok(gs: GameState) -> bool {
    let rows = MAX_ROW_BLOCKS as int;
    match gs.phase {
        BlockPhase::Spawning => {
            &&& gs.num_stacked <= STACK_LIMIT
            &&& gs.sprites_used <= rows * gs.num_stacked
        },
        BlockPhase::Oscillating => {
            &&& gs.num_stacked < STACK_LIMIT
            &&& gs.row_start + gs.drop_sprite_blocks == gs.sprites_used
            &&& gs.sprites_used <= rows * (gs.num_stacked + 1)
        },
        BlockPhase::Falling => {
            &&& gs.num_stacked < STACK_LIMIT
            &&& gs.row_start <= gs.sprites_used
            &&& gs.sprites_used <= rows * (gs.num_stacked + 1)
        },
    }
}

/// The invariant of the game state.
pub open spec fn state_ok(gs: GameState) -> bool {
    &&& 1 <= gs.game_mode <= 3
    &&& gs.drop_sprite_blocks <= MAX_ROW_BLOCKS
    &&& block_slots_ok(gs)
    &&& in_field(gs.left_border as int)
    &&& in_field(gs.right_border as int)
    &&& in_field(gs.cur_x as int)
    &&& in_field(gs.cur_y as int)
    &&& in_field(gs.target_x as int)
    &&& in_field(gs.target_y as int)
    &&& bullet_ok(gs.bullet1)
    &&& bullet_ok(gs.bullet2)
    &&& bullet_ok(gs.bullet3)
    &&& gs.bullet_count == moving_count(gs)
}

} // verus!
