use vstd::prelude::*;
use crate::block::{
    drop_row, dropped_state, fall_step, fallen_pool, fallen_state, fall_step_of, oscillate_row,
    oscillated_pool, oscillated_state, row_delta, spawn_row, spawned_pool, spawned_state,
    trimmed_pool,
};
use crate::config::{
    difficulty, difficulty_params, ATLAS_ROWS, BULLET_CAP, NUDGE_RANGE, SPRITE_SIZE, STACK_LIMIT,
    WINDOW_WIDTH,
};
use crate::laws::{frame_rules, law_frame_rules};
use crate::random::draw_rolls;
use crate::shooter::{draw_shooter, plus_one, shooter_pool, shooter_state, shooter_update, Nudge};
use crate::sprite::{cleared_pool, pool_ok, AtlasCell, Sprite, SpritePool};
use crate::state::{fresh, fresh_state, state_ok, BlockPhase, GameState, InputSnapshot, Screen};

verus! {

/// The line of text shown with a frame.
#[derive(Clone, Copy, PartialEq, Eq, Structural, Debug)]
pub enum StatusText {
    /// The title screen's menu.
    Title,
    /// The block game's difficulty menu.
    BlockSetup,
    /// Nothing.
    Blank,
    /// The level of the block game.
    Level(u32),
    /// The block game's game-over banner.
    GameOver,
    /// The shooter game's score.
    Score(u32),
}

/// The random draws that one tick may use.
#[derive(Clone, Copy, PartialEq, Eq, Structural, Debug)]
pub struct Rolls {
    /// Left edge of a row spawned on this tick.
    pub row_offset: u32,
    /// Colour of a row spawned on this tick.
    pub color: AtlasCell,
    /// Pushes of the target on a hit by the first, second and third bullet slot.
    pub nudge1: Nudge,
    pub nudge2: Nudge,
    pub nudge3: Nudge,
}

/// Draws that fit the state: a row spawned from `gs` lies wholly on the field,
/// its colour is one of the block columns of the atlas, and each push is below
/// `NUDGE_RANGE`.
pub open spec fn rolls_ok(r: Rolls, gs: GameState) -> bool {
    &&& r.row_offset + SPRITE_SIZE * gs.drop_sprite_blocks < WINDOW_WIDTH
    &&& 1 <= r.color.col <= 2
    &&& r.color.row < ATLAS_ROWS
    &&& r.nudge1.amount < NUDGE_RANGE
    &&& r.nudge2.amount < NUDGE_RANGE
    &&& r.nudge3.amount < NUDGE_RANGE
}

/// The difficulty after the setup screen has read the digit keys.
pub open spec fn chosen_mode(mode: u32, input: InputSnapshot) -> u32 {
    if input.key1 {
        1
    } else if input.key2 {
        2
    } else if input.key3 {
        3
    } else {
        mode
    }
}

/// The state the setup screen leaves: a fresh block round at the chosen
/// difficulty, started once a digit key is held.
pub open spec fn setup_state(gs: GameState, input: InputSnapshot) -> GameState {
    let mode = chosen_mode(gs.game_mode, input);
    GameState {
        screen: if input.key1 || input.key2 || input.key3 {
            Screen::BlockPlay
        } else {
            Screen::BlockSetup
        },
        drop_sprite_blocks: difficulty(mode).0,
        speed: difficulty(mode).1,
        ..fresh_state(mode)
    }
}

/// The first state of the next level: one level up, one step faster, the row
/// as wide as the difficulty gives.
pub open spec fn next_round(gs: GameState) -> GameState {
    GameState {
        screen: Screen::BlockPlay,
        level: plus_one(gs.level),
        speed: plus_one(gs.speed),
        drop_sprite_blocks: difficulty(gs.game_mode).0,
        ..fresh_state(gs.game_mode)
    }
}

/// The state that the block game's game-over screen starts from.
pub open spec fn game_over_state(gs: GameState) -> GameState {
    GameState { screen: Screen::BlockGameOver, ..fresh_state(gs.game_mode) }
}

/// One tick of the block game.
pub open spec fn block_frame(gs: GameState, p: Seq<Sprite>, input: InputSnapshot, r: Rolls) -> (
    GameState,
    Seq<Sprite>,
    StatusText,
) {
    let lo = gs.row_start as int;
    let hi = gs.sprites_used as int;
    match gs.phase {
        BlockPhase::Spawning => {
            if gs.drop_sprite_blocks == 0 {
                (game_over_state(gs), cleared_pool(), StatusText::Blank)
            } else if gs.num_stacked >= STACK_LIMIT {
                if input.space {
                    (gs, p, StatusText::Blank)
                } else {
                    (next_round(gs), cleared_pool(), StatusText::Blank)
                }
            } else {
                (
                    spawned_state(gs),
                    spawned_pool(
                        p,
                        hi,
                        gs.drop_sprite_blocks as int,
                        r.row_offset as int,
                        r.color,
                    ),
                    StatusText::Blank,
                )
            }
        },
        BlockPhase::Oscillating => {
            if input.space {
                (
                    dropped_state(gs, p),
                    trimmed_pool(p, lo, hi, gs.left_border as int, gs.right_border as int),
                    StatusText::Blank,
                )
            } else {
                (
                    oscillated_state(gs, p),
                    oscillated_pool(p, lo, hi, row_delta(gs)),
                    if gs.num_stacked == 0 {
                        StatusText::Level(gs.level)
                    } else {
                        StatusText::Blank
                    },
                )
            }
        },
        BlockPhase::Falling => (
            fallen_state(gs, p),
            fallen_pool(p, gs.num_stacked as int, fall_step_of(gs)),
            StatusText::Blank,
        ),
    }
}

/// One tick of the whole simulation: the state, the pool and the text that
/// follow `gs` and `p` when `input` is held and the random draws are `r`.
/// Escape returns to the title screen with every sprite inactive, before anything else.
pub open spec fn next_frame(gs: GameState, p: Seq<Sprite>, input: InputSnapshot, r: Rolls) -> (
    GameState,
    Seq<Sprite>,
    StatusText,
) {
    if input.escape {
        (GameState { screen: Screen::Title, ..gs }, cleared_pool(), StatusText::Title)
    } else {
        match gs.screen {
            Screen::Title => {
                if input.a {
                    (GameState { screen: Screen::BlockSetup, ..gs }, p, StatusText::Title)
                } else if input.b {
                    (
                        GameState { screen: Screen::SpaceSetup, ..fresh_state(gs.game_mode) },
                        cleared_pool(),
                        StatusText::Title,
                    )
                } else {
                    (gs, p, StatusText::Title)
                }
            },
            Screen::BlockSetup => (setup_state(gs, input), cleared_pool(), StatusText::BlockSetup),
            Screen::BlockPlay => block_frame(gs, p, input, r),
            Screen::BlockGameOver => (
                if input.c {
                    GameState { screen: Screen::BlockSetup, ..fresh_state(gs.game_mode) }
                } else {
                    gs
                },
                cleared_pool(),
                StatusText::GameOver,
            ),
            Screen::SpaceSetup | Screen::SpacePlay => {
                let g = shooter_state(gs, input, r.nudge1, r.nudge2, r.nudge3);
                (g, shooter_pool(p, g), StatusText::Score(g.score))
            },
            Screen::SpaceGameOver => (gs, p, StatusText::Blank),
        }
    }
}

/// One tick of the block game.
pub fn block_tick(gs: &mut GameState, pool: &mut SpritePool, input: &InputSnapshot, rolls: &Rolls) -> (text: StatusText)
    requires
        state_ok(*old(gs)),
        pool_ok(old(pool)@),
        rolls_ok(*rolls, *old(gs)),
        old(gs).screen == Screen::BlockPlay,
    ensures
        (*final(gs), final(pool)@, text) == block_frame(*old(gs), old(pool)@, *input, *rolls),
        state_ok(*final(gs)),
        pool_ok(final(pool)@),
{
    match gs.phase {
        BlockPhase::Spawning => {
            if gs.drop_sprite_blocks == 0 {
                let mode = gs.game_mode;
                *gs = fresh(mode);
                gs.screen = Screen::BlockGameOver;
                pool.reset();
            } else if gs.num_stacked >= STACK_LIMIT {
                if !input.space {
                    let mode = gs.game_mode;
                    let level = gs.level.saturating_add(1);
                    let speed = gs.speed.saturating_add(1);
                    let (blocks, _) = difficulty_params(mode);
                    *gs = fresh(mode);
                    gs.screen = Screen::BlockPlay;
                    gs.level = level;
                    gs.speed = speed;
                    gs.drop_sprite_blocks = blocks;
                    pool.reset();
                }
            } else {
                spawn_row(gs, pool, rolls.row_offset as i64, rolls.color);
            }
            StatusText::Blank
        },
        BlockPhase::Oscillating => {
            if input.space {
                drop_row(gs, pool);
                StatusText::Blank
            } else {
                let level = gs.level;
                let first_row = gs.num_stacked == 0;
                oscillate_row(gs, pool);
                if first_row {
                    StatusText::Level(level)
                } else {
                    StatusText::Blank
                }
            }
        },
        BlockPhase::Falling => {
            fall_step(gs, pool);
            StatusText::Blank
        },
    }
}

/// One tick of the simulation, with the random draws given.
pub fn tick(gs: &mut GameState, pool: &mut SpritePool, input: &InputSnapshot, rolls: &Rolls) -> (text: StatusText)
    requires
        state_ok(*old(gs)),
        pool_ok(old(pool)@),
        rolls_ok(*rolls, *old(gs)),
    ensures
        (*final(gs), final(pool)@, text) == next_frame(*old(gs), old(pool)@, *input, *rolls),
        state_ok(*final(gs)),
        pool_ok(final(pool)@),
        frame_rules(*old(gs), old(pool)@, *input, *final(gs), final(pool)@),
        final(gs).bullet_count <= BULLET_CAP,
{
    proof {
        law_frame_rules(*gs, pool@, *input, *rolls);
    }
    if input.escape {
        gs.screen = Screen::Title;
        pool.reset();
        return StatusText::Title;
    }
    match gs.screen {
        Screen::Title => {
            if input.a {
                gs.screen = Screen::BlockSetup;
            } else if input.b {
                let mode = gs.game_mode;
                *gs = fresh(mode);
                gs.screen = Screen::SpaceSetup;
                pool.reset();
            }
            StatusText::Title
        },
        Screen::BlockSetup => {
            let mode = if input.key1 {
                1
            } else if input.key2 {
                2
            } else if input.key3 {
                3
            } else {
                gs.game_mode
            };
            let (blocks, speed) = difficulty_params(mode);
            *gs = fresh(mode);
            if input.key1 || input.key2 || input.key3 {
                gs.screen = Screen::BlockPlay;
            } else {
                gs.screen = Screen::BlockSetup;
            }
            gs.drop_sprite_blocks = blocks;
            gs.speed = speed;
            pool.reset();
            StatusText::BlockSetup
        },
        Screen::BlockPlay => block_tick(gs, pool, input, rolls),
        Screen::BlockGameOver => {
            if input.c {
                let mode = gs.game_mode;
                *gs = fresh(mode);
                gs.screen = Screen::BlockSetup;
            }
            pool.reset();
            StatusText::GameOver
        },
        Screen::SpaceSetup | Screen::SpacePlay => {
            shooter_update(gs, input, rolls.nudge1, rolls.nudge2, rolls.nudge3);
            draw_shooter(gs, pool);
            StatusText::Score(gs.score)
        },
        Screen::SpaceGameOver => StatusText::Blank,
    }
}

/// One tick of the simulation: draws the random numbers it may need and runs
/// `tick` with them. The outcome is the one `next_frame` gives for some
/// fitting draws.
pub fn update(gs: &mut GameState, pool: &mut SpritePool, input: &InputSnapshot) -> (text: StatusText)
    requires
        state_ok(*old(gs)),
        pool_ok(old(pool)@),
    ensures
        exists|r: Rolls|
            rolls_ok(r, *old(gs)) && (*final(gs), final(pool)@, text) == next_frame(
                *old(gs),
                old(pool)@,
                *input,
                r,
            ),
        state_ok(*final(gs)),
        pool_ok(final(pool)@),
        frame_rules(*old(gs), old(pool)@, *input, *final(gs), final(pool)@),
        final(gs).bullet_count <= BULLET_CAP,
{
    let rolls = draw_rolls(gs);
    tick(gs, pool, input, &rolls)
}

} // verus!
