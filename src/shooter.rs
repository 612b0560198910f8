use vstd::prelude::*;
use crate::block::row_delta;
use crate::config::{
    BOUNCE_LIMIT, BULLET_CAP, BULLET_SPEED, FIRST_BULLET_SLOT, HIT_LINE, NUDGE_MARGIN, NUDGE_RANGE,
    SHIP_SLOT, SHIP_STEP, SPRITE_SIZE, TARGET_SLOT, WINDOW_HEIGHT, WINDOW_WIDTH,
};
use crate::sprite::{
    in_field, inactive, inactive_sprite, pool_ok, shift, shifted, sprite_ok, unit, unit_sprite,
    AtlasCell, Sprite, SpritePool,
};
use crate::state::{bullet_ok, state_ok, Bullet, GameState, InputSnapshot, Screen};

verus! {

/// A random push given to the target when it is hit.
#[derive(Clone, Copy, PartialEq, Eq, Structural, Debug)]
pub struct Nudge {
    /// Distance, below `NUDGE_RANGE`.
    pub amount: u32,
    pub leftward: bool,
}

/// What became of a bullet on one tick.
#[derive(Clone, Copy, PartialEq, Eq, Structural, Debug)]
pub enum BulletEvent {
    /// Idle, flying, or past the top edge.
    Quiet,
    /// It struck the target and is retired.
    Hit,
}

/// `v + 1`, held at the largest `u32`.
pub open spec fn plus_one(v: u32) -> u32 {
    if v < u32::MAX {
        (v + 1) as u32
    } else {
        v
    }
}

// ---------------------------------------------------------------- target and ship

/// The direction of the target after its bounce test at `x`, about to move by `d`.
pub open spec fn target_turned(x: int, dir: bool, d: int) -> bool {
    if x >= BOUNCE_LIMIT - d {
        true
    } else if x < d {
        false
    } else {
        dir
    }
}

/// The state after the target's move of one tick.
pub open spec fn moved_target(gs: GameState) -> GameState {
    let d = row_delta(gs);
    GameState {
        target_x: shifted(gs.target_x as int, d) as i64,
        direction: target_turned(gs.target_x as int, gs.direction, d),
        ..gs
    }
}

/// The state after the ship's move of one tick: left wins over right.
pub open spec fn moved_ship(gs: GameState, input: InputSnapshot) -> GameState {
    GameState {
        cur_x: (if input.left {
            shifted(gs.cur_x as int, -SHIP_STEP)
        } else if input.right {
            shifted(gs.cur_x as int, SHIP_STEP as int)
        } else {
            gs.cur_x as int
        }) as i64,
        ..gs
    }
}

/// The state after the fire key: the first idle bullet slot starts at the ship.
/// With all three in flight nothing happens.
pub open spec fn fired(gs: GameState) -> GameState {
    let b = Bullet { x: gs.cur_x, y: gs.cur_y, moving: true };
    let n = (gs.bullet_count + 1) as usize;
    if !gs.bullet1.moving {
        GameState { bullet1: b, bullet_count: n, ..gs }
    } else if !gs.bullet2.moving {
        GameState { bullet2: b, bullet_count: n, ..gs }
    } else if !gs.bullet3.moving {
        GameState { bullet3: b, bullet_count: n, ..gs }
    } else {
        gs
    }
}

/// Moves the target one step and bounces it at the edges.
pub fn move_target(gs: &mut GameState)
    requires
        state_ok(*old(gs)),
    ensures
        *final(gs) == moved_target(*old(gs)),
        state_ok(*final(gs)),
{
    let d: i64 = if gs.direction {
        -(gs.speed as i64)
    } else {
        gs.speed as i64
    };
    let x = gs.target_x;
    if x >= BOUNCE_LIMIT - d {
        gs.direction = true;
    } else if x < d {
        gs.direction = false;
    }
    gs.target_x = shift(x, d);
}

/// Moves the ship by the arrow keys.
pub fn move_ship(gs: &mut GameState, input: &InputSnapshot)
    requires
        state_ok(*old(gs)),
    ensures
        *final(gs) == moved_ship(*old(gs), *input),
        state_ok(*final(gs)),
{
    if input.left {
        gs.cur_x = shift(gs.cur_x, -SHIP_STEP);
    } else if input.right {
        gs.cur_x = shift(gs.cur_x, SHIP_STEP);
    }
}

/// Starts a bullet at the ship from the first idle slot, if there is one.
pub fn fire(gs: &mut GameState)
    requires
        state_ok(*old(gs)),
    ensures
        *final(gs) == fired(*old(gs)),
        state_ok(*final(gs)),
        old(gs).bullet_count < BULLET_CAP ==> final(gs).bullet_count == old(gs).bullet_count + 1,
        old(gs).bullet_count == BULLET_CAP ==> *final(gs) == *old(gs),
{
    let b = Bullet { x: gs.cur_x, y: gs.cur_y, moving: true };
    if !gs.bullet1.moving {
        gs.bullet1 = b;
        gs.bullet_count = gs.bullet_count + 1;
    } else if !gs.bullet2.moving {
        gs.bullet2 = b;
        gs.bullet_count = gs.bullet_count + 1;
    } else if !gs.bullet3.moving {
        gs.bullet3 = b;
        gs.bullet_count = gs.bullet_count + 1;
    }
}

// ---------------------------------------------------------------- bullets

/// A bullet at `b` strikes a target at horizontal position `tx`.
pub open spec fn is_hit(b: Bullet, tx: int) -> bool {
    tx - SPRITE_SIZE <= b.x <= tx + SPRITE_SIZE && b.y >= HIT_LINE
}

/// One tick of a bullet against a target at `tx`: a flying bullet below the top
/// edge climbs and is tested for a hit; one that is already past it stays where
/// it is and keeps its slot.
pub open spec fn bullet_after(b: Bullet, tx: int) -> (Bullet, BulletEvent) {
    if !b.moving {
        (b, BulletEvent::Quiet)
    } else if b.y < WINDOW_HEIGHT {
        let nb = Bullet { y: (b.y + BULLET_SPEED) as i64, ..b };
        if is_hit(nb, tx) {
            (Bullet { y: WINDOW_HEIGHT, moving: false, ..nb }, BulletEvent::Hit)
        } else {
            (nb, BulletEvent::Quiet)
        }
    } else {
        (b, BulletEvent::Quiet)
    }
}

/// Advances one bullet against a target at `tx`.
pub fn bullet_step(b: Bullet, tx: i64) -> (r: (Bullet, BulletEvent))
    requires
        bullet_ok(b),
        in_field(tx as int),
    ensures
        r == bullet_after(b, tx as int),
        bullet_ok(r.0),
{
    if !b.moving {
        (b, BulletEvent::Quiet)
    } else if b.y < WINDOW_HEIGHT {
        let nb = Bullet { y: b.y + BULLET_SPEED, ..b };
        if tx - SPRITE_SIZE <= nb.x && nb.x <= tx + SPRITE_SIZE && nb.y >= HIT_LINE {
            (Bullet { y: WINDOW_HEIGHT, moving: false, ..nb }, BulletEvent::Hit)
        } else {
            (nb, BulletEvent::Quiet)
        }
    } else {
        (b, BulletEvent::Quiet)
    }
}

/// The target at `x` pushed by `n`, never past `NUDGE_MARGIN` from either edge
/// of the field; a target already beyond that margin is not pushed outward.
pub open spec fn nudged(x: int, n: Nudge) -> int {
    if n.leftward {
        if x > NUDGE_MARGIN {
            if x - n.amount < NUDGE_MARGIN {
                NUDGE_MARGIN as int
            } else {
                x - n.amount
            }
        } else {
            x
        }
    } else {
        if x < WINDOW_WIDTH - NUDGE_MARGIN {
            if x + n.amount > WINDOW_WIDTH - NUDGE_MARGIN {
                (WINDOW_WIDTH - NUDGE_MARGIN) as int
            } else {
                x + n.amount
            }
        } else {
            x
        }
    }
}

pub fn nudge(x: i64, n: Nudge) -> (r: i64)
    requires
        in_field(x as int),
    ensures
        r == nudged(x as int, n),
        in_field(r as int),
{
    let amount = n.amount as i64;
    if n.leftward {
        if x > NUDGE_MARGIN {
            if x - amount < NUDGE_MARGIN {
                NUDGE_MARGIN
            } else {
                x - amount
            }
        } else {
            x
        }
    } else {
        if x < WINDOW_WIDTH - NUDGE_MARGIN {
            if x + amount > WINDOW_WIDTH - NUDGE_MARGIN {
                WINDOW_WIDTH - NUDGE_MARGIN
            } else {
                x + amount
            }
        } else {
            x
        }
    }
}

/// The state after a bullet's event: a hit scores a point, retires the bullet
/// and pushes the target.
pub open spec fn scored(gs: GameState, ev: BulletEvent, n: Nudge) -> GameState {
    match ev {
        BulletEvent::Quiet => gs,
        BulletEvent::Hit => GameState {
            score: plus_one(gs.score),
            bullet_count: (gs.bullet_count - 1) as usize,
            target_x: nudged(gs.target_x as int, n) as i64,
            ..gs
        },
    }
}

/// Books the event of one bullet, whose slot already holds its new value.
/// A hit scores a point and takes one bullet off the count in the same tick.
pub fn settle(gs: &mut GameState, ev: BulletEvent, n: Nudge)
    requires
        in_field(old(gs).target_x as int),
        ev == BulletEvent::Hit ==> old(gs).bullet_count >= 1,
    ensures
        *final(gs) == scored(*old(gs), ev, n),
        in_field(final(gs).target_x as int),
        ev == BulletEvent::Hit && old(gs).score < u32::MAX ==> final(gs).score == old(gs).score + 1
            && final(gs).bullet_count == old(gs).bullet_count - 1,
{
    match ev {
        BulletEvent::Quiet => {},
        BulletEvent::Hit => {
            if gs.score < u32::MAX {
                gs.score = gs.score + 1;
            }
            gs.bullet_count = gs.bullet_count - 1;
            gs.target_x = nudge(gs.target_x, n);
        },
    }
}

// ---------------------------------------------------------------- one tick

pub open spec fn target_cell() -> AtlasCell {
    AtlasCell { col: 3, row: 0 }
}

pub open spec fn ship_cell() -> AtlasCell {
    AtlasCell { col: 3, row: 9 }
}

pub open spec fn bullet_cell() -> AtlasCell {
    AtlasCell { col: 2, row: 9 }
}

/// A bullet in flight is drawn as a unit square; an idle one is inactive.
pub open spec fn bullet_sprite(b: Bullet) -> Sprite {
    if b.moving {
        unit_sprite(b.x, b.y, bullet_cell())
    } else {
        inactive_sprite()
    }
}

fn bullet_sprite_of(b: Bullet) -> (r: Sprite)
    ensures
        r == bullet_sprite(b),
{
    if b.moving {
        unit(b.x, b.y, AtlasCell { col: 2, row: 9 })
    } else {
        inactive()
    }
}

/// The state after the three bullet slots are advanced in turn, each against the
/// target as the slots before it left it; `n1`, `n2`, `n3` push the target on a hit.
pub open spec fn shot(gs: GameState, n1: Nudge, n2: Nudge, n3: Nudge) -> GameState {
    let (b1, e1) = bullet_after(gs.bullet1, gs.target_x as int);
    let g1 = scored(GameState { bullet1: b1, ..gs }, e1, n1);
    let (b2, e2) = bullet_after(g1.bullet2, g1.target_x as int);
    let g2 = scored(GameState { bullet2: b2, ..g1 }, e2, n2);
    let (b3, e3) = bullet_after(g2.bullet3, g2.target_x as int);
    scored(GameState { bullet3: b3, ..g2 }, e3, n3)
}

/// The state after one tick of the shooter game: the target moves, the ship
/// moves, the fire key starts a bullet, and the bullets advance.
pub open spec fn shooter_state(
    gs: GameState,
    input: InputSnapshot,
    n1: Nudge,
    n2: Nudge,
    n3: Nudge,
) -> GameState {
    let moved = moved_ship(moved_target(GameState { screen: Screen::SpacePlay, ..gs }), input);
    let armed = if input.space {
        fired(moved)
    } else {
        moved
    };
    shot(armed, n1, n2, n3)
}

/// The pool showing `gs`: the target, the ship and the three bullet slots.
pub open spec fn shooter_pool(p: Seq<Sprite>, gs: GameState) -> Seq<Sprite> {
    p.update(TARGET_SLOT as int, unit_sprite(gs.target_x, gs.target_y, target_cell())).update(
        SHIP_SLOT as int,
        unit_sprite(gs.cur_x, gs.cur_y, ship_cell()),
    ).update(FIRST_BULLET_SLOT as int, bullet_sprite(gs.bullet1)).update(
        FIRST_BULLET_SLOT + 1,
        bullet_sprite(gs.bullet2),
    ).update(FIRST_BULLET_SLOT + 2, bullet_sprite(gs.bullet3))
}

/// Advances the bullet in one slot and books what became of it.
fn advance(gs: &mut GameState, slot: u32, n: Nudge)
    requires
        state_ok(*old(gs)),
        1 <= slot <= 3,
    ensures
        slot == 1 ==> {
            let (b, e) = bullet_after(old(gs).bullet1, old(gs).target_x as int);
            *final(gs) == scored(GameState { bullet1: b, ..*old(gs) }, e, n)
        },
        slot == 2 ==> {
            let (b, e) = bullet_after(old(gs).bullet2, old(gs).target_x as int);
            *final(gs) == scored(GameState { bullet2: b, ..*old(gs) }, e, n)
        },
        slot == 3 ==> {
            let (b, e) = bullet_after(old(gs).bullet3, old(gs).target_x as int);
            *final(gs) == scored(GameState { bullet3: b, ..*old(gs) }, e, n)
        },
        state_ok(*final(gs)),
{
    let tx = gs.target_x;
    if slot == 1 {
        let (b, e) = bullet_step(gs.bullet1, tx);
        gs.bullet1 = b;
        settle(gs, e, n);
    } else if slot == 2 {
        let (b, e) = bullet_step(gs.bullet2, tx);
        gs.bullet2 = b;
        settle(gs, e, n);
    } else {
        let (b, e) = bullet_step(gs.bullet3, tx);
        gs.bullet3 = b;
        settle(gs, e, n);
    }
}

/// Advances the shooter game's state by one tick; `n1`, `n2`, `n3` are the
/// pushes the target gets if the first, second or third bullet slot hits it.
pub fn shooter_update(gs: &mut GameState, input: &InputSnapshot, n1: Nudge, n2: Nudge, n3: Nudge)
    requires
        state_ok(*old(gs)),
    ensures
        *final(gs) == shooter_state(*old(gs), *input, n1, n2, n3),
        state_ok(*final(gs)),
{
    gs.screen = Screen::SpacePlay;
    move_target(gs);
    move_ship(gs, input);
    if input.space {
        fire(gs);
    }
    let ghost armed = *gs;
    advance(gs, 1, n1);
    advance(gs, 2, n2);
    advance(gs, 3, n3);
    assert(*gs == shot(armed, n1, n2, n3));
}

/// Shows the shooter game: the target, the ship and the three bullet slots.
pub fn draw_shooter(gs: &GameState, pool: &mut SpritePool)
    requires
        state_ok(*gs),
        pool_ok(old(pool)@),
    ensures
        final(pool)@ == shooter_pool(old(pool)@, *gs),
        pool_ok(final(pool)@),
{
    let ghost p0 = pool@;
    pool.set(TARGET_SLOT, unit(gs.target_x, gs.target_y, AtlasCell { col: 3, row: 0 }));
    pool.set(SHIP_SLOT, unit(gs.cur_x, gs.cur_y, AtlasCell { col: 3, row: 9 }));
    pool.set(FIRST_BULLET_SLOT, bullet_sprite_of(gs.bullet1));
    pool.set(FIRST_BULLET_SLOT + 1, bullet_sprite_of(gs.bullet2));
    pool.set(FIRST_BULLET_SLOT + 2, bullet_sprite_of(gs.bullet3));
    assert(pool@ =~= shooter_pool(p0, *gs));
    assert forall|j: int| 0 <= j < pool@.len() implies #[trigger] sprite_ok(pool@[j]) by {
        assert(sprite_ok(p0[j]));
    }
}

} // verus!
