use vstd::prelude::*;
use crate::config::{ATLAS_COLS, ATLAS_ROWS, POOL_CAPACITY, POSITION_LIMIT, SPRITE_SIZE, WINDOW_HEIGHT, WINDOW_WIDTH};

verus! {

/// An axis-aligned rectangle on screen.
#[derive(Clone, Copy, PartialEq, Eq, Structural, Debug)]
pub struct Rect {
    pub x: i64,
    pub y: i64,
    pub w: i64,
    pub h: i64,
}

/// A cell of the sprite atlas, which is a grid of `ATLAS_COLS` by `ATLAS_ROWS` cells.
#[derive(Clone, Copy, PartialEq, Eq, Structural, Debug)]
pub struct AtlasCell {
    pub col: u32,
    pub row: u32,
}

/// One renderable entry of the pool: where it is drawn and what it shows.
/// A sprite of zero width and height is inactive.
#[derive(Clone, Copy, PartialEq, Eq, Structural, Debug)]
pub struct Sprite {
    pub bounds: Rect,
    pub atlas: AtlasCell,
}

pub open spec fn in_field(v: int) -> bool {
    -POSITION_LIMIT <= v <= POSITION_LIMIT
}

pub open spec fn cell_ok(c: AtlasCell) -> bool {
    c.col < ATLAS_COLS && c.row < ATLAS_ROWS
}

pub open spec fn is_active(s: Sprite) -> bool {
    s.bounds.w != 0
}

/// A sprite is either inactive (zero by zero) or one unit square, lies within
/// the coordinate range, and shows a cell of the atlas.
pub open spec fn sprite_ok(s: Sprite) -> bool {
    &&& (s.bounds.w == 0 && s.bounds.h == 0) || (s.bounds.w == SPRITE_SIZE && s.bounds.h
        == SPRITE_SIZE)
    &&& in_field(s.bounds.x as int)
    &&& in_field(s.bounds.y as int)
    &&& cell_ok(s.atlas)
}

pub open spec fn blank_cell() -> AtlasCell {
    AtlasCell { col: 1, row: 0 }
}

/// The one form an inactive sprite takes: off the bottom right corner, zero sized.
pub open spec fn inactive_sprite() -> Sprite {
    Sprite {
        bounds: Rect { x: WINDOW_WIDTH, y: WINDOW_HEIGHT, w: 0, h: 0 },
        atlas: blank_cell(),
    }
}

/// A unit square at `(x, y)` showing `cell`.
pub open spec fn unit_sprite(x: i64, y: i64, cell: AtlasCell) -> Sprite {
    Sprite { bounds: Rect { x, y, w: SPRITE_SIZE, h: SPRITE_SIZE }, atlas: cell }
}

pub fn inactive() -> (r: Sprite)
    ensures
        r == inactive_sprite(),
{
    Sprite {
        bounds: Rect { x: WINDOW_WIDTH, y: WINDOW_HEIGHT, w: 0, h: 0 },
        atlas: AtlasCell { col: 1, row: 0 },
    }
}

pub fn unit(x: i64, y: i64, cell: AtlasCell) -> (r: Sprite)
    ensures
        r == unit_sprite(x, y, cell),
{
    Sprite { bounds: Rect { x, y, w: SPRITE_SIZE, h: SPRITE_SIZE }, atlas: cell }
}

/// Every slot of a pool of the fixed capacity holds a well-formed sprite.
pub open spec fn pool_ok(p: Seq<Sprite>) -> bool {
    &&& p.len() == POOL_CAPACITY
    &&& forall|i: int| 0 <= i < p.len() ==> #[trigger] sprite_ok(p[i])
}

/// A pool of the fixed capacity in which every sprite is inactive.
pub open spec fn cleared_pool() -> Seq<Sprite> {
    Seq::new(POOL_CAPACITY as nat, |i: int| inactive_sprite())
}

/// The fixed-capacity array of renderable rectangles.
pub struct SpritePool {
    sprites: Vec<Sprite>,
}

impl View for SpritePool {
    type V = Seq<Sprite>;

    closed spec fn view(&self) -> Seq<Sprite> {
        self.sprites@
    }
}

impl SpritePool {
    /// A pool in which every slot is inactive.
    pub fn new() -> (r: SpritePool)
        ensures
            r@ == cleared_pool(),
            pool_ok(r@),
    {
        let mut sprites: Vec<Sprite> = Vec::new();
        let mut i: usize = 0;
        while i < POOL_CAPACITY
            invariant
                i <= POOL_CAPACITY,
                sprites@.len() == i,
                forall|j: int| 0 <= j < i ==> sprites@[j] == inactive_sprite(),
            decreases POOL_CAPACITY - i,
        {
            sprites.push(inactive());
            i += 1;
        }
        let r = SpritePool { sprites };
        assert(r@ =~= cleared_pool());
        r
    }

    /// Turns every sprite inactive.
    pub fn reset(&mut self)
        requires
            old(self)@.len() == POOL_CAPACITY,
        ensures
            final(self)@ == cleared_pool(),
            pool_ok(final(self)@),
    {
        let mut i: usize = 0;
        while i < self.sprites.len()
            invariant
                self.sprites@.len() == POOL_CAPACITY,
                i <= POOL_CAPACITY,
                forall|j: int| 0 <= j < i ==> self.sprites@[j] == inactive_sprite(),
            decreases POOL_CAPACITY - i,
        {
            self.sprites.set(i, inactive());
            i += 1;
        }
        assert(self@ =~= cleared_pool());
    }

    pub fn len(&self) -> (r: usize)
        ensures
            r == self@.len(),
    {
        self.sprites.len()
    }

    pub fn get(&self, i: usize) -> (r: Sprite)
        requires
            i < self@.len(),
        ensures
            r == self@[i as int],
    {
        self.sprites[i]
    }

    pub fn set(&mut self, i: usize, s: Sprite)
        requires
            i < old(self)@.len(),
        ensures
            final(self)@ == old(self)@.update(i as int, s),
    {
        self.sprites.set(i, s);
    }
}

} // verus!

verus! {

/// `x` moved by `d`, unless that would leave the coordinate range.
pub open spec fn shifted(x: int, d: int) -> int {
    if in_field(x + d) {
        x + d
    } else {
        x
    }
}

pub fn shift(x: i64, d: i64) -> (r: i64)
    requires
        in_field(x as int),
        -POSITION_LIMIT <= d <= POSITION_LIMIT,
    ensures
        r == shifted(x as int, d as int),
        in_field(r as int),
{
    let moved = x + d;
    if -POSITION_LIMIT <= moved && moved <= POSITION_LIMIT {
        moved
    } else {
        x
    }
}

} // verus!
