use vstd::prelude::*;
use crate::config::{
    BOUNCE_LIMIT, HALF_SPRITE, MAX_ROW_BLOCKS, POOL_CAPACITY, POSITION_LIMIT, SPRITE_SIZE, STACK_LIMIT, TOP_ROW_Y, WINDOW_HEIGHT,
    WINDOW_WIDTH,
};
use crate::sprite::{
    cell_ok, in_field, inactive, inactive_sprite, is_active, pool_ok, shift, shifted, sprite_ok,
    unit, unit_sprite, AtlasCell, Rect, Sprite, SpritePool,
};
use crate::state::{state_ok, BlockPhase, GameState};

verus! {

/// An active sprite on the spawn line: a block of the row that has not dropped yet.
pub open spec fn is_top(s: Sprite) -> bool {
    is_active(s) && s.bounds.y == TOP_ROW_Y
}

// ---------------------------------------------------------------- spawning

/// The pool after a row of `width` blocks showing `cell` is placed on the spawn
/// line from slot `start` on, its left block at `x0`.
pub open spec fn spawned_pool(p: Seq<Sprite>, start: int, width: int, x0: int, cell: AtlasCell) -> Seq<
    Sprite,
> {
    Seq::new(
        p.len(),
        |i: int|
            if start <= i < start + width {
                unit_sprite((x0 + SPRITE_SIZE * (i - start)) as i64, TOP_ROW_Y, cell)
            } else {
                p[i]
            },
    )
}

/// The state after a row is spawned: it takes the next `drop_sprite_blocks` slots.
pub open spec fn spawned_state(gs: GameState) -> GameState {
    GameState {
        row_start: gs.sprites_used,
        sprites_used: (gs.sprites_used + gs.drop_sprite_blocks) as usize,
        phase: BlockPhase::Oscillating,
        ..gs
    }
}

/// Places a new row of `drop_sprite_blocks` blocks on the spawn line, its left block at `x0`.
pub fn spawn_row(gs: &mut GameState, pool: &mut SpritePool, x0: i64, cell: AtlasCell)
    requires
        state_ok(*old(gs)),
        pool_ok(old(pool)@),
        old(gs).phase == BlockPhase::Spawning,
        0 < old(gs).drop_sprite_blocks,
        old(gs).num_stacked < STACK_LIMIT,
        0 <= x0,
        x0 + SPRITE_SIZE * old(gs).drop_sprite_blocks <= WINDOW_WIDTH,
        cell_ok(cell),
    ensures
        *final(gs) == spawned_state(*old(gs)),
        final(pool)@ == spawned_pool(
            old(pool)@,
            old(gs).sprites_used as int,
            old(gs).drop_sprite_blocks as int,
            x0 as int,
            cell,
        ),
        state_ok(*final(gs)),
        pool_ok(final(pool)@),
{
    let ghost p0 = pool@;
    let start = gs.sprites_used;
    let width = gs.drop_sprite_blocks as usize;
    let mut k: usize = 0;
    while k < width
        invariant
            start + width <= POOL_CAPACITY,
            width <= MAX_ROW_BLOCKS,
            0 <= x0,
            x0 + SPRITE_SIZE * width <= WINDOW_WIDTH,
            cell_ok(cell),
            k <= width,
            p0.len() == POOL_CAPACITY,
            pool_ok(p0),
            pool@.len() == POOL_CAPACITY,
            forall|i: int|
                0 <= i < POOL_CAPACITY ==> pool@[i] == if start <= i < start + k {
                    unit_sprite((x0 + SPRITE_SIZE * (i - start)) as i64, TOP_ROW_Y, cell)
                } else {
                    p0[i]
                },
        decreases width - k,
    {
        pool.set(start + k, unit(x0 + SPRITE_SIZE * (k as i64), TOP_ROW_Y, cell));
        k += 1;
    }
    gs.row_start = start;
    gs.sprites_used = start + width;
    gs.phase = BlockPhase::Oscillating;
    assert(pool@ =~= spawned_pool(p0, start as int, width as int, x0 as int, cell));
    assert forall|i: int| 0 <= i < pool@.len() implies #[trigger] sprite_ok(pool@[i]) by {
        if start <= i < start + width {
            assert(sprite_ok(unit_sprite((x0 + SPRITE_SIZE * (i - start)) as i64, TOP_ROW_Y, cell)));
        } else {
            assert(sprite_ok(p0[i]));
        }
    }
}

// ---------------------------------------------------------------- oscillating

/// Horizontal step of the row and the target on this tick: the speed, signed by the direction.
pub open spec fn row_delta(gs: GameState) -> int {
    if gs.direction {
        -(gs.speed as int)
    } else {
        gs.speed as int
    }
}

/// `s` moved sideways by `d` (within the coordinate range).
pub open spec fn slid(s: Sprite, d: int) -> Sprite {
    Sprite { bounds: Rect { x: shifted(s.bounds.x as int, d) as i64, ..s.bounds }, ..s }
}

/// Some block of the row, about to move by `d`, has reached the right turning point.
pub open spec fn reaches_right(p: Seq<Sprite>, lo: int, hi: int, d: int) -> bool {
    exists|i: int| lo <= i < hi && is_top(p[i]) && p[i].bounds.x >= BOUNCE_LIMIT - d
}

/// Some block of the row, about to move by `d`, has reached the left turning point.
pub open spec fn reaches_left(p: Seq<Sprite>, lo: int, hi: int, d: int) -> bool {
    exists|i: int| lo <= i < hi && is_top(p[i]) && p[i].bounds.x < d
}

/// The direction after a bounce test: the right edge wins, then the left edge.
pub open spec fn bounced(dir: bool, right: bool, left: bool) -> bool {
    if right {
        true
    } else if left {
        false
    } else {
        dir
    }
}

/// The pool after every block of the row in slots `lo..hi` moved sideways by `d`.
pub open spec fn oscillated_pool(p: Seq<Sprite>, lo: int, hi: int, d: int) -> Seq<Sprite> {
    Seq::new(p.len(), |i: int| if lo <= i < hi && is_top(p[i]) { slid(p[i], d) } else { p[i] })
}

/// The state after one oscillation tick: only the direction may change.
pub open spec fn oscillated_state(gs: GameState, p: Seq<Sprite>) -> GameState {
    let lo = gs.row_start as int;
    let hi = gs.sprites_used as int;
    let d = row_delta(gs);
    GameState {
        direction: bounced(gs.direction, reaches_right(p, lo, hi, d), reaches_left(p, lo, hi, d)),
        ..gs
    }
}

/// Slides the row one step in the current direction, and turns it when a block
/// has reached the edge of the field.
pub fn oscillate_row(gs: &mut GameState, pool: &mut SpritePool)
    requires
        state_ok(*old(gs)),
        pool_ok(old(pool)@),
        old(gs).phase == BlockPhase::Oscillating,
    ensures
        *final(gs) == oscillated_state(*old(gs), old(pool)@),
        final(pool)@ == oscillated_pool(
            old(pool)@,
            old(gs).row_start as int,
            old(gs).sprites_used as int,
            row_delta(*old(gs)),
        ),
        state_ok(*final(gs)),
        pool_ok(final(pool)@),
{
    let ghost p0 = pool@;
    let lo = gs.row_start;
    let hi = gs.sprites_used;
    let d: i64 = if gs.direction {
        -(gs.speed as i64)
    } else {
        gs.speed as i64
    };
    let mut right = false;
    let mut left = false;
    let mut i: usize = lo;
    while i < hi
        invariant
            lo <= i <= hi,
            hi <= POOL_CAPACITY,
            d == row_delta(*old(gs)),
            -(u32::MAX as i64) <= d <= u32::MAX as i64,
            pool_ok(p0),
            pool@.len() == POOL_CAPACITY,
            right == (exists|j: int|
                lo <= j < i && is_top(p0[j]) && p0[j].bounds.x >= BOUNCE_LIMIT - d),
            left == (exists|j: int| lo <= j < i && is_top(p0[j]) && p0[j].bounds.x < d),
            forall|j: int|
                0 <= j < POOL_CAPACITY ==> pool@[j] == if lo <= j < i && is_top(p0[j]) {
                    slid(p0[j], d as int)
                } else {
                    p0[j]
                },
        decreases hi - i,
    {
        let s = pool.get(i);
        assert(sprite_ok(p0[i as int]));
        if s.bounds.w != 0 && s.bounds.y == TOP_ROW_Y {
            if s.bounds.x >= BOUNCE_LIMIT - d {
                right = true;
            }
            if s.bounds.x < d {
                left = true;
            }
            let moved = Sprite { bounds: Rect { x: shift(s.bounds.x, d), ..s.bounds }, ..s };
            pool.set(i, moved);
        }
        i += 1;
    }
    if right {
        gs.direction = true;
    } else if left {
        gs.direction = false;
    }
    assert(pool@ =~= oscillated_pool(p0, lo as int, hi as int, d as int));
    assert forall|j: int| 0 <= j < pool@.len() implies #[trigger] sprite_ok(pool@[j]) by {
        assert(sprite_ok(p0[j]));
    }
}

// ---------------------------------------------------------------- dropping

/// `s` overhangs the support region `[l, r]` by more than half a block.
pub open spec fn outside_support(s: Sprite, l: int, r: int) -> bool {
    s.bounds.x < l - HALF_SPRITE || s.bounds.x > r + HALF_SPRITE
}

/// `s` is a block of the row that the drop trims away.
pub open spec fn trims(s: Sprite, l: int, r: int) -> bool {
    is_top(s) && outside_support(s, l, r)
}

/// `s` is a block of the row that the drop keeps.
pub open spec fn survives(s: Sprite, l: int, r: int) -> bool {
    is_top(s) && !outside_support(s, l, r)
}

/// Blocks in slots `lo..hi` that the drop trims away.
pub open spec fn trim_count(p: Seq<Sprite>, lo: int, hi: int, l: int, r: int) -> int
    decreases hi - lo,
{
    if hi <= lo {
        0
    } else {
        trim_count(p, lo, hi - 1, l, r) + if trims(p[hi - 1], l, r) {
            1int
        } else {
            0int
        }
    }
}

/// Leftmost position of a kept block in slots `lo..hi`; `POSITION_LIMIT` if none is kept.
pub open spec fn survivors_left(p: Seq<Sprite>, lo: int, hi: int, l: int, r: int) -> int
    decreases hi - lo,
{
    if hi <= lo {
        POSITION_LIMIT as int
    } else {
        let m = survivors_left(p, lo, hi - 1, l, r);
        if survives(p[hi - 1], l, r) && p[hi - 1].bounds.x < m {
            p[hi - 1].bounds.x as int
        } else {
            m
        }
    }
}

/// Rightmost position of a kept block in slots `lo..hi`; `-POSITION_LIMIT` if none is kept.
pub open spec fn survivors_right(p: Seq<Sprite>, lo: int, hi: int, l: int, r: int) -> int
    decreases hi - lo,
{
    if hi <= lo {
        -POSITION_LIMIT
    } else {
        let m = survivors_right(p, lo, hi - 1, l, r);
        if survives(p[hi - 1], l, r) && p[hi - 1].bounds.x > m {
            p[hi - 1].bounds.x as int
        } else {
            m
        }
    }
}

/// The pool after the drop: blocks of slots `lo..hi` outside the support region turn inactive.
pub open spec fn trimmed_pool(p: Seq<Sprite>, lo: int, hi: int, l: int, r: int) -> Seq<Sprite> {
    Seq::new(
        p.len(),
        |i: int|
            if lo <= i < hi && trims(p[i], l, r) {
                inactive_sprite()
            } else {
                p[i]
            },
    )
}

/// The state after the drop: the row loses its trimmed blocks, the support
/// region narrows to the extremes of the kept blocks (but never widens; with no
/// block kept it closes entirely), and the row starts falling.
pub open spec fn dropped_state(gs: GameState, p: Seq<Sprite>) -> GameState {
    let lo = gs.row_start as int;
    let hi = gs.sprites_used as int;
    let l = gs.left_border as int;
    let r = gs.right_border as int;
    let sl = survivors_left(p, lo, hi, l, r);
    let sr = survivors_right(p, lo, hi, l, r);
    GameState {
        drop_sprite_blocks: (gs.drop_sprite_blocks - trim_count(p, lo, hi, l, r)) as u32,
        left_border: (if sl > l {
            sl
        } else {
            l
        }) as i64,
        right_border: (if sr < r {
            sr
        } else {
            r
        }) as i64,
        phase: BlockPhase::Falling,
        ..gs
    }
}

pub proof fn lemma_trim_count_bounds(p: Seq<Sprite>, lo: int, hi: int, l: int, r: int)
    requires
        lo <= hi,
    ensures
        0 <= trim_count(p, lo, hi, l, r) <= hi - lo,
    decreases hi - lo,
{
    if lo < hi {
        lemma_trim_count_bounds(p, lo, hi - 1, l, r);
    }
}

pub proof fn lemma_survivors_in_field(p: Seq<Sprite>, lo: int, hi: int, l: int, r: int)
    requires
        0 <= lo <= hi <= p.len(),
        forall|i: int| 0 <= i < p.len() ==> #[trigger] sprite_ok(p[i]),
    ensures
        in_field(survivors_left(p, lo, hi, l, r)),
        in_field(survivors_right(p, lo, hi, l, r)),
    decreases hi - lo,
{
    if lo < hi {
        lemma_survivors_in_field(p, lo, hi - 1, l, r);
        assert(sprite_ok(p[hi - 1]));
    }
}

/// Drops the row: trims each of its blocks that lies outside the support region,
/// narrows the region to the blocks that remain, and starts the fall.
pub fn drop_row(gs: &mut GameState, pool: &mut SpritePool)
    requires
        state_ok(*old(gs)),
        pool_ok(old(pool)@),
        old(gs).phase == BlockPhase::Oscillating,
    ensures
        *final(gs) == dropped_state(*old(gs), old(pool)@),
        final(pool)@ == trimmed_pool(
            old(pool)@,
            old(gs).row_start as int,
            old(gs).sprites_used as int,
            old(gs).left_border as int,
            old(gs).right_border as int,
        ),
        state_ok(*final(gs)),
        pool_ok(final(pool)@),
{
    let ghost p0 = pool@;
    let lo = gs.row_start;
    let hi = gs.sprites_used;
    let l = gs.left_border;
    let r = gs.right_border;
    let mut trimmed: u32 = 0;
    let mut left_edge: i64 = POSITION_LIMIT;
    let mut right_edge: i64 = -POSITION_LIMIT;
    let mut i: usize = lo;
    while i < hi
        invariant
            lo <= i <= hi,
            hi <= POOL_CAPACITY,
            hi - lo <= 5,
            in_field(l as int),
            in_field(r as int),
            pool_ok(p0),
            pool@.len() == POOL_CAPACITY,
            trimmed == trim_count(p0, lo as int, i as int, l as int, r as int),
            trimmed <= i - lo,
            left_edge == survivors_left(p0, lo as int, i as int, l as int, r as int),
            right_edge == survivors_right(p0, lo as int, i as int, l as int, r as int),
            forall|j: int|
                0 <= j < POOL_CAPACITY ==> pool@[j] == if lo <= j < i && trims(p0[j], l as int, r as int) {
                    inactive_sprite()
                } else {
                    p0[j]
                },
        decreases hi - i,
    {
        let s = pool.get(i);
        assert(sprite_ok(p0[i as int]));
        if s.bounds.w != 0 && s.bounds.y == TOP_ROW_Y {
            if s.bounds.x < l - HALF_SPRITE || s.bounds.x > r + HALF_SPRITE {
                pool.set(i, inactive());
                trimmed = trimmed + 1;
            } else {
                if s.bounds.x < left_edge {
                    left_edge = s.bounds.x;
                }
                if s.bounds.x > right_edge {
                    right_edge = s.bounds.x;
                }
            }
        }
        i += 1;
    }
    proof {
        lemma_survivors_in_field(p0, lo as int, hi as int, l as int, r as int);
    }
    gs.drop_sprite_blocks = gs.drop_sprite_blocks - trimmed;
    if left_edge > l {
        gs.left_border = left_edge;
    }
    if right_edge < r {
        gs.right_border = right_edge;
    }
    gs.phase = BlockPhase::Falling;
    assert(pool@ =~= trimmed_pool(p0, lo as int, hi as int, l as int, r as int));
    assert forall|j: int| 0 <= j < pool@.len() implies #[trigger] sprite_ok(pool@[j]) by {
        assert(sprite_ok(p0[j]));
    }
}

// ---------------------------------------------------------------- falling

/// `s` is still above the top of a stack of `n` rows, and on screen.
pub open spec fn in_flight(s: Sprite, n: int) -> bool {
    s.bounds.y >= SPRITE_SIZE * n && s.bounds.y < WINDOW_HEIGHT
}

/// How far a falling block sinks per tick: half the speed, rounded down.
pub open spec fn fall_step_of(gs: GameState) -> int {
    gs.speed as int / 2
}

/// `s` moved down by `step`.
pub open spec fn lowered(s: Sprite, step: int) -> Sprite {
    Sprite { bounds: Rect { y: (s.bounds.y - step) as i64, ..s.bounds }, ..s }
}

/// Some sprite of the pool is still in flight above a stack of `n` rows.
pub open spec fn any_in_flight(p: Seq<Sprite>, n: int) -> bool {
    exists|i: int| 0 <= i < p.len() && in_flight(p[i], n)
}

/// The pool after one fall tick: each sprite in flight sinks by `step`.
pub open spec fn fallen_pool(p: Seq<Sprite>, n: int, step: int) -> Seq<Sprite> {
    Seq::new(p.len(), |i: int| if in_flight(p[i], n) { lowered(p[i], step) } else { p[i] })
}

/// The state after one fall tick: once no sprite is in flight, the row has
/// landed, the stack grows by one and the next row is due.
pub open spec fn fallen_state(gs: GameState, p: Seq<Sprite>) -> GameState {
    if any_in_flight(p, gs.num_stacked as int) {
        gs
    } else {
        GameState {
            phase: BlockPhase::Spawning,
            num_stacked: (gs.num_stacked + 1) as u32,
            ..gs
        }
    }
}

/// Lowers every sprite that is above the stack and still on screen; when none
/// is left in flight, the row has landed.
pub fn fall_step(gs: &mut GameState, pool: &mut SpritePool)
    requires
        state_ok(*old(gs)),
        pool_ok(old(pool)@),
        old(gs).phase == BlockPhase::Falling,
    ensures
        *final(gs) == fallen_state(*old(gs), old(pool)@),
        final(pool)@ == fallen_pool(
            old(pool)@,
            old(gs).num_stacked as int,
            fall_step_of(*old(gs)),
        ),
        state_ok(*final(gs)),
        pool_ok(final(pool)@),
{
    let ghost p0 = pool@;
    let floor: i64 = SPRITE_SIZE * (gs.num_stacked as i64);
    let step: i64 = (gs.speed / 2) as i64;
    let mut still_falling = false;
    let mut i: usize = 0;
    while i < POOL_CAPACITY
        invariant
            i <= POOL_CAPACITY,
            0 <= floor == SPRITE_SIZE * old(gs).num_stacked,
            step == fall_step_of(*old(gs)),
            0 <= step <= u32::MAX as i64,
            pool_ok(p0),
            pool@.len() == POOL_CAPACITY,
            still_falling == (exists|j: int| 0 <= j < i && in_flight(p0[j], old(gs).num_stacked as int)),
            forall|j: int|
                0 <= j < POOL_CAPACITY ==> pool@[j] == if j < i && in_flight(
                    p0[j],
                    old(gs).num_stacked as int,
                ) {
                    lowered(p0[j], step as int)
                } else {
                    p0[j]
                },
        decreases POOL_CAPACITY - i,
    {
        let s = pool.get(i);
        assert(sprite_ok(p0[i as int]));
        if s.bounds.y >= floor && s.bounds.y < WINDOW_HEIGHT {
            still_falling = true;
            pool.set(i, Sprite { bounds: Rect { y: s.bounds.y - step, ..s.bounds }, ..s });
        }
        i += 1;
    }
    if !still_falling {
        gs.phase = BlockPhase::Spawning;
        gs.num_stacked = gs.num_stacked + 1;
    }
    assert(pool@ =~= fallen_pool(p0, old(gs).num_stacked as int, step as int));
    assert forall|j: int| 0 <= j < pool@.len() implies #[trigger] sprite_ok(pool@[j]) by {
        assert(sprite_ok(p0[j]));
    }
}

} // verus!
