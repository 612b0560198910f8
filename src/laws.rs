use vstd::prelude::*;
use crate::block::{lemma_survivors_in_field, lemma_trim_count_bounds, trim_count};
use crate::config::{BULLET_CAP, STACK_LIMIT};
use crate::frame::{next_frame, next_round, rolls_ok, Rolls};
use crate::sprite::{cleared_pool, pool_ok, Sprite};
use crate::state::{state_ok, BlockPhase, GameState, InputSnapshot, Screen};

verus! {

/// The tick from `gs` to `g` stays within one round of the block game: it
/// neither left the game nor opened the next level.
pub open spec fn same_round(gs: GameState, g: GameState) -> bool {
    gs.screen == Screen::BlockPlay && g.screen == Screen::BlockPlay && g.level == gs.level
}

/// The tick from `gs` with pool `p` drops the row and trims at least one block.
pub open spec fn trim_occurs(gs: GameState, p: Seq<Sprite>, input: InputSnapshot) -> bool {
    &&& !input.escape
    &&& gs.screen == Screen::BlockPlay
    &&& gs.phase == BlockPhase::Oscillating
    &&& input.space
    &&& trim_count(
        p,
        gs.row_start as int,
        gs.sprites_used as int,
        gs.left_border as int,
        gs.right_border as int,
    ) > 0
}

/// Within a round the support region never widens.
pub open spec fn borders_narrow(gs: GameState, g: GameState) -> bool {
    gs.level < u32::MAX && same_round(gs, g) ==> g.left_border >= gs.left_border && g.right_border
        <= gs.right_border
}

/// Within a round the row never widens, and it narrows exactly when blocks are trimmed.
pub open spec fn row_shrinks_by_trims(
    gs: GameState,
    p: Seq<Sprite>,
    input: InputSnapshot,
    g: GameState,
) -> bool {
    gs.level < u32::MAX && same_round(gs, g) ==> {
        &&& g.drop_sprite_blocks <= gs.drop_sprite_blocks
        &&& g.drop_sprite_blocks < gs.drop_sprite_blocks <==> trim_occurs(gs, p, input)
    }
}

/// The block game ends exactly when a row is due and no block is left to build it.
pub open spec fn game_over_on_empty_row(gs: GameState, input: InputSnapshot, g: GameState) -> bool {
    gs.screen == Screen::BlockPlay && !input.escape ==> (g.screen == Screen::BlockGameOver <==> (
    gs.phase == BlockPhase::Spawning && gs.drop_sprite_blocks == 0))
}

/// Within a round the stack grows by one when a fall completes, and otherwise stays.
pub open spec fn stack_counts_landings(gs: GameState, g: GameState) -> bool {
    gs.level < u32::MAX && same_round(gs, g) ==> g.num_stacked == gs.num_stacked + if gs.phase
        == BlockPhase::Falling && g.phase == BlockPhase::Spawning {
        1int
    } else {
        0int
    }
}

/// A row that is due opens the next level exactly when the stack is full.
/// Below the largest `u32` the next level is one level up and one step faster,
/// with an empty stack and the support region reset; otherwise level, speed
/// and stack stay as they were.
pub open spec fn level_up_at_full_stack(gs: GameState, input: InputSnapshot, g: GameState) -> bool {
    gs.screen == Screen::BlockPlay && !input.escape && !input.space && gs.drop_sprite_blocks > 0
        ==> {
        &&& g == next_round(gs) <==> gs.num_stacked >= STACK_LIMIT
        &&& gs.num_stacked >= STACK_LIMIT && gs.level < u32::MAX && gs.speed < u32::MAX ==> {
            &&& g.screen == Screen::BlockPlay
            &&& g.level == gs.level + 1
            &&& g.speed == gs.speed + 1
            &&& g.num_stacked == 0
            &&& g.left_border == 0
            &&& g.right_border == 1080
        }
        &&& gs.phase == BlockPhase::Spawning && gs.num_stacked < STACK_LIMIT ==> {
            &&& g.level == gs.level
            &&& g.speed == gs.speed
            &&& g.num_stacked == gs.num_stacked
        }
    }
}

/// On a tick of the shooter game the score rises by exactly the number of hits,
/// and each hit frees one bullet slot: what the count lost, besides a bullet
/// fired on this tick, is what the score gained.
pub open spec fn hits_score(gs: GameState, input: InputSnapshot, g: GameState) -> bool {
    (gs.screen == Screen::SpaceSetup || gs.screen == Screen::SpacePlay) && !input.escape
        && gs.score <= u32::MAX - 3 ==> g.score == gs.score + (gs.bullet_count + (if input.space
        && gs.bullet_count < BULLET_CAP {
        1int
    } else {
        0int
    })) - g.bullet_count
}

/// Escape, from any screen, returns to the title with every sprite inactive.
pub open spec fn escape_resets(input: InputSnapshot, g: GameState, q: Seq<Sprite>) -> bool {
    input.escape ==> g.screen == Screen::Title && q == cleared_pool()
}

/// All the rules above, for one tick from `gs` and `p` to `g` and `q`.
pub open spec fn frame_rules(
    gs: GameState,
    p: Seq<Sprite>,
    input: InputSnapshot,
    g: GameState,
    q: Seq<Sprite>,
) -> bool {
    &&& borders_narrow(gs, g)
    &&& row_shrinks_by_trims(gs, p, input, g)
    &&& game_over_on_empty_row(gs, input, g)
    &&& stack_counts_landings(gs, g)
    &&& level_up_at_full_stack(gs, input, g)
    &&& hits_score(gs, input, g)
    &&& escape_resets(input, g, q)
}

/// Within one round of the block game, `left_border` only grows and
/// `right_border` only shrinks. (At the largest level a new round keeps the
/// level, so rounds are told apart only below it.)
pub proof fn law_borders_narrow(gs: GameState, p: Seq<Sprite>, input: InputSnapshot, r: Rolls)
    requires
        state_ok(gs),
        pool_ok(p),
        rolls_ok(r, gs),
    ensures
        borders_narrow(gs, next_frame(gs, p, input, r).0),
{
    if gs.phase == BlockPhase::Oscillating {
        lemma_survivors_in_field(
            p,
            gs.row_start as int,
            gs.sprites_used as int,
            gs.left_border as int,
            gs.right_border as int,
        );
    }
}

/// Within one round `drop_sprite_blocks` never grows, and it shrinks on a tick
/// exactly when that tick trims a block, by the number of blocks trimmed.
pub proof fn law_row_shrinks_by_trims(gs: GameState, p: Seq<Sprite>, input: InputSnapshot, r: Rolls)
    requires
        state_ok(gs),
        pool_ok(p),
        rolls_ok(r, gs),
    ensures
        row_shrinks_by_trims(gs, p, input, next_frame(gs, p, input, r).0),
        trim_occurs(gs, p, input) ==> next_frame(gs, p, input, r).0.drop_sprite_blocks
            == gs.drop_sprite_blocks - trim_count(
            p,
            gs.row_start as int,
            gs.sprites_used as int,
            gs.left_border as int,
            gs.right_border as int,
        ),
{
    if gs.phase == BlockPhase::Oscillating {
        lemma_trim_count_bounds(
            p,
            gs.row_start as int,
            gs.sprites_used as int,
            gs.left_border as int,
            gs.right_border as int,
        );
    }
}

/// The block game goes to its game-over screen exactly when a new row is due
/// and `drop_sprite_blocks` has reached zero.
pub proof fn law_game_over_on_empty_row(
    gs: GameState,
    p: Seq<Sprite>,
    input: InputSnapshot,
    r: Rolls,
)
    requires
        state_ok(gs),
        pool_ok(p),
        rolls_ok(r, gs),
    ensures
        game_over_on_empty_row(gs, input, next_frame(gs, p, input, r).0),
{
}

/// Within one round `num_stacked` grows by exactly one when a fall completes and
/// never shrinks; the next level starts exactly when more than eleven rows have
/// landed, one level up and one step faster.
pub proof fn law_stack_counts_landings(
    gs: GameState,
    p: Seq<Sprite>,
    input: InputSnapshot,
    r: Rolls,
)
    requires
        state_ok(gs),
        pool_ok(p),
        rolls_ok(r, gs),
    ensures
        stack_counts_landings(gs, next_frame(gs, p, input, r).0),
        level_up_at_full_stack(gs, input, next_frame(gs, p, input, r).0),
{
}

/// On a shooter tick a hit scores one point and takes one bullet off the count;
/// nothing else lowers the count or raises the score.
pub proof fn law_hits_score(gs: GameState, p: Seq<Sprite>, input: InputSnapshot, r: Rolls)
    requires
        state_ok(gs),
        pool_ok(p),
        rolls_ok(r, gs),
    ensures
        hits_score(gs, input, next_frame(gs, p, input, r).0),
{
}

/// Holding escape on any screen returns to the title with every sprite inactive.
pub proof fn law_escape_resets(gs: GameState, p: Seq<Sprite>, input: InputSnapshot, r: Rolls)
    ensures
        escape_resets(input, next_frame(gs, p, input, r).0, next_frame(gs, p, input, r).1),
{
}

/// Every rule above holds of each tick from a well-formed state.
pub proof fn law_frame_rules(gs: GameState, p: Seq<Sprite>, input: InputSnapshot, r: Rolls)
    requires
        state_ok(gs),
        pool_ok(p),
        rolls_ok(r, gs),
    ensures
        frame_rules(gs, p, input, next_frame(gs, p, input, r).0, next_frame(gs, p, input, r).1),
{
    law_borders_narrow(gs, p, input, r);
    law_row_shrinks_by_trims(gs, p, input, r);
    law_game_over_on_empty_row(gs, p, input, r);
    law_stack_counts_landings(gs, p, input, r);
    law_hits_score(gs, p, input, r);
    law_escape_resets(gs, p, input, r);
}

} // verus!
