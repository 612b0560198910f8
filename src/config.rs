use vstd::prelude::*;

verus! {

/// Width of the play field, in pixels.
pub const WINDOW_WIDTH: i64 = 1024;

/// Height of the play field, in pixels.
pub const WINDOW_HEIGHT: i64 = 768;

/// Side of one unit sprite (a block, the ship, the target, a bullet).
pub const SPRITE_SIZE: i64 = 64;

/// Half a sprite: the tolerance by which a block may overhang the support region.
pub const HALF_SPRITE: i64 = 32;

/// Vertical position of a freshly spawned row and of the target.
pub const TOP_ROW_Y: i64 = WINDOW_HEIGHT - SPRITE_SIZE;

/// Horizontal position at which an oscillating row or the target turns back.
pub const BOUNCE_LIMIT: i64 = 960;

/// Number of landed rows that completes a level.
pub const STACK_LIMIT: u32 = 12;

/// Widest row of the block game, in unit blocks.
pub const MAX_ROW_BLOCKS: u32 = 5;

/// Number of slots in the sprite pool: enough for every row of one round.
pub const POOL_CAPACITY: usize = 60;

/// Vertical distance a bullet covers per tick.
pub const BULLET_SPEED: i64 = 45;

/// Most bullets that can be in flight at once.
pub const BULLET_CAP: usize = 3;

/// Horizontal distance the ship covers per tick.
pub const SHIP_STEP: i64 = 6;

/// A bullet at or beyond this height may hit the target.
pub const HIT_LINE: i64 = WINDOW_HEIGHT - SPRITE_SIZE - 50;

/// Exclusive upper bound of the random nudge given to the target on a hit.
pub const NUDGE_RANGE: u32 = 10;

/// The nudge keeps the target this far from either edge of the field.
pub const NUDGE_MARGIN: i64 = 10;

/// Every coordinate of the simulation stays within plus or minus this value.
pub const POSITION_LIMIT: i64 = 1_099_511_627_776;

/// Slot of the sprite pool that shows the target in the shooter game.
pub const TARGET_SLOT: usize = 0;

/// Slot of the sprite pool that shows the ship in the shooter game.
pub const SHIP_SLOT: usize = 1;

/// Slot of the sprite pool that shows the first bullet; the other two follow it.
pub const FIRST_BULLET_SLOT: usize = 2;

/// Columns of the sprite atlas; each cell is a quarter of its width.
pub const ATLAS_COLS: u32 = 4;

/// Rows of the sprite atlas; each cell is a tenth of its height.
pub const ATLAS_ROWS: u32 = 10;

/// Row width and speed that a difficulty level (1, 2 or 3) starts a block round with.
pub open spec fn difficulty(mode: u32) -> (u32, u32) {
    if mode == 1 {
        (5, 4)
    } else if mode == 2 {
        (4, 6)
    } else {
        (3, 10)
    }
}

/// Row width and speed for a difficulty level; anything but 1 or 2 counts as 3.
pub fn difficulty_params(mode: u32) -> (r: (u32, u32))
    ensures
        r == difficulty(mode),
{
    if mode == 1 {
        (5, 4)
    } else if mode == 2 {
        (4, 6)
    } else {
        (3, 10)
    }
}

} // verus!
