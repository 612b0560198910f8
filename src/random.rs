use vstd::prelude::*;
use rand::Rng;
use crate::config::{NUDGE_RANGE, SPRITE_SIZE, WINDOW_WIDTH};
use crate::frame::{rolls_ok, Rolls};
use crate::shooter::Nudge;
use crate::sprite::AtlasCell;
use crate::state::{state_ok, GameState};

verus! {

/// Relies on `rand::thread_rng` and `rand::Rng::gen_range`: a number drawn
/// uniformly from `0..bound` with the thread's generator, which the system seeds
/// on first use. `gen_range` panics on an empty range, hence `bound > 0`.
#[verifier::external_body]
fn random_below(bound: u32) -> (r: u32)
    requires
        0 < bound,
    ensures
        r < bound,
{
    rand::thread_rng().gen_range(0..bound)
}

fn draw_nudge() -> (n: Nudge)
    ensures
        n.amount < NUDGE_RANGE,
{
    let amount = random_below(NUDGE_RANGE);
    let leftward = random_below(3) != 0;
    Nudge { amount, leftward }
}

/// Draws everything a tick from `gs` may need: a row position that keeps the
/// row on the field, a block colour, and three pushes for the target.
pub fn draw_rolls(gs: &GameState) -> (r: Rolls)
    requires
        state_ok(*gs),
    ensures
        rolls_ok(r, *gs),
{
    let room = (WINDOW_WIDTH - SPRITE_SIZE * (gs.drop_sprite_blocks as i64)) as u32;
    let row_offset = random_below(room);
    let col = 1 + random_below(2);
    let row = random_below(10);
    Rolls {
        row_offset,
        color: AtlasCell { col, row },
        nudge1: draw_nudge(),
        nudge2: draw_nudge(),
        nudge3: draw_nudge(),
    }
}

} // verus!
