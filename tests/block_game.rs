use block_games::config::{difficulty_params, SPRITE_SIZE, TOP_ROW_Y, WINDOW_HEIGHT, WINDOW_WIDTH};
use block_games::frame::{tick, update, Rolls, StatusText};
use block_games::shooter::Nudge;
use block_games::sprite::{AtlasCell, Rect, Sprite, SpritePool};
use block_games::state::{init_game_state, BlockPhase, GameState, InputSnapshot, Screen};

fn no_keys() -> InputSnapshot {
    InputSnapshot {
        escape: false,
        key1: false,
        key2: false,
        key3: false,
        a: false,
        b: false,
        c: false,
        left: false,
        right: false,
        space: false,
    }
}

fn rolls_at(row_offset: u32) -> Rolls {
    let n = Nudge { amount: 0, leftward: false };
    Rolls { row_offset, color: AtlasCell { col: 1, row: 3 }, nudge1: n, nudge2: n, nudge3: n }
}

#[test]
fn title_a_then_digit_starts_block_round() {
    let mut gs = init_game_state();
    let mut pool = SpritePool::new();
    let t = tick(&mut gs, &mut pool, &InputSnapshot { a: true, ..no_keys() }, &rolls_at(0));
    assert_eq!(t, StatusText::Title);
    assert_eq!(gs.screen, Screen::BlockSetup);
    let t = tick(&mut gs, &mut pool, &no_keys(), &rolls_at(0));
    assert_eq!(t, StatusText::BlockSetup);
    assert_eq!(gs.screen, Screen::BlockSetup);
    tick(&mut gs, &mut pool, &InputSnapshot { key2: true, ..no_keys() }, &rolls_at(0));
    assert_eq!(gs.screen, Screen::BlockPlay);
    assert_eq!(gs.game_mode, 2);
    assert_eq!(gs.drop_sprite_blocks, 4);
    assert_eq!(gs.speed, 6);
    assert_eq!(gs.phase, BlockPhase::Spawning);
}

#[test]
fn update_draws_rows_that_fit_the_field() {
    for mode_key in 0..3 {
        let mut gs = init_game_state();
        let mut pool = SpritePool::new();
        tick(&mut gs, &mut pool, &InputSnapshot { a: true, ..no_keys() }, &rolls_at(0));
        let keys = match mode_key {
            0 => InputSnapshot { key1: true, ..no_keys() },
            1 => InputSnapshot { key2: true, ..no_keys() },
            _ => InputSnapshot { key3: true, ..no_keys() },
        };
        tick(&mut gs, &mut pool, &keys, &rolls_at(0));
        for _ in 0..40 {
            let width = gs.drop_sprite_blocks as usize;
            let mut g2: GameState = gs;
            let mut p2 = SpritePool::new();
            update(&mut g2, &mut p2, &no_keys());
            assert_eq!(g2.phase, BlockPhase::Oscillating);
            let left = p2.get(0).bounds.x;
            assert!(left >= 0);
            assert!(left + SPRITE_SIZE * (width as i64) < WINDOW_WIDTH);
            let cell = p2.get(0).atlas;
            assert!(cell.col == 1 || cell.col == 2);
            assert!(cell.row < 10);
            for k in 0..width {
                assert_eq!(p2.get(k).bounds.x, left + SPRITE_SIZE * k as i64);
                assert_eq!(p2.get(k).atlas, cell);
            }
        }
    }
}

fn press(space: bool) -> InputSnapshot {
    InputSnapshot { space, ..no_keys() }
}

/// A block round at the easiest difficulty, ready to spawn its first row.
fn easy_round() -> (GameState, SpritePool) {
    let mut gs = init_game_state();
    let mut pool = SpritePool::new();
    tick(&mut gs, &mut pool, &InputSnapshot { a: true, ..no_keys() }, &rolls_at(0));
    tick(&mut gs, &mut pool, &InputSnapshot { key1: true, ..no_keys() }, &rolls_at(0));
    (gs, pool)
}

/// Ticks without keys until the falling row has landed.
fn land(gs: &mut GameState, pool: &mut SpritePool) {
    let mut guard = 0;
    while gs.phase == BlockPhase::Falling {
        tick(gs, pool, &no_keys(), &rolls_at(0));
        guard += 1;
        assert!(guard < 10_000);
    }
}

fn top_row_xs(pool: &SpritePool) -> Vec<i64> {
    let mut xs = Vec::new();
    for i in 0..pool.len() {
        let s: Sprite = pool.get(i);
        if s.bounds.w != 0 && s.bounds.y == TOP_ROW_Y {
            xs.push(s.bounds.x);
        }
    }
    xs
}

fn sizes_ok(pool: &SpritePool) -> bool {
    (0..pool.len()).all(|i| {
        let b = pool.get(i).bounds;
        (b.w == 0 && b.h == 0) || (b.w == SPRITE_SIZE && b.h == SPRITE_SIZE)
    })
}

#[test]
fn difficulty_table() {
    assert_eq!(difficulty_params(1), (5, 4));
    assert_eq!(difficulty_params(2), (4, 6));
    assert_eq!(difficulty_params(3), (3, 10));
}

#[test]
fn spawn_places_row_on_top_line() {
    let (mut gs, mut pool) = easy_round();
    assert_eq!((gs.drop_sprite_blocks, gs.speed), (5, 4));
    tick(&mut gs, &mut pool, &no_keys(), &rolls_at(100));
    assert_eq!(gs.phase, BlockPhase::Oscillating);
    assert_eq!((gs.row_start, gs.sprites_used), (0, 5));
    assert_eq!(top_row_xs(&pool), vec![100, 164, 228, 292, 356]);
    assert_eq!(pool.get(2).atlas, AtlasCell { col: 1, row: 3 });
    assert!(pool.get(5).bounds.w == 0);
}

#[test]
fn oscillation_moves_by_speed_and_shows_level() {
    let (mut gs, mut pool) = easy_round();
    tick(&mut gs, &mut pool, &no_keys(), &rolls_at(100));
    let t = tick(&mut gs, &mut pool, &no_keys(), &rolls_at(0));
    assert_eq!(t, StatusText::Level(1));
    assert_eq!(top_row_xs(&pool), vec![104, 168, 232, 296, 360]);
    assert!(!gs.direction);
}

#[test]
fn oscillation_turns_at_right_edge() {
    let (mut gs, mut pool) = easy_round();
    // widest row, leftmost offset that still fits: right block at 956
    tick(&mut gs, &mut pool, &no_keys(), &rolls_at(700));
    assert_eq!(top_row_xs(&pool)[4], 956);
    tick(&mut gs, &mut pool, &no_keys(), &rolls_at(0));
    assert!(gs.direction);
    assert_eq!(top_row_xs(&pool)[4], 960);
    tick(&mut gs, &mut pool, &no_keys(), &rolls_at(0));
    assert_eq!(top_row_xs(&pool)[4], 956);
}

#[test]
fn first_drop_keeps_whole_row_and_sets_borders() {
    let (mut gs, mut pool) = easy_round();
    tick(&mut gs, &mut pool, &no_keys(), &rolls_at(100));
    tick(&mut gs, &mut pool, &press(true), &rolls_at(0));
    assert_eq!(gs.phase, BlockPhase::Falling);
    assert_eq!(gs.drop_sprite_blocks, 5);
    assert_eq!((gs.left_border, gs.right_border), (100, 356));
}

#[test]
fn fall_lowers_by_half_speed_then_lands() {
    let (mut gs, mut pool) = easy_round();
    tick(&mut gs, &mut pool, &no_keys(), &rolls_at(100));
    tick(&mut gs, &mut pool, &press(true), &rolls_at(0));
    tick(&mut gs, &mut pool, &no_keys(), &rolls_at(0));
    assert_eq!(pool.get(0).bounds.y, TOP_ROW_Y - 2);
    assert_eq!(gs.num_stacked, 0);
    land(&mut gs, &mut pool);
    assert_eq!(gs.num_stacked, 1);
    assert_eq!(gs.phase, BlockPhase::Spawning);
    assert!(pool.get(0).bounds.y < 0);
}

#[test]
fn drop_trimming_two_of_five_leaves_three() {
    let (mut gs, mut pool) = easy_round();
    assert_eq!((gs.drop_sprite_blocks, gs.speed), (5, 4));
    tick(&mut gs, &mut pool, &no_keys(), &rolls_at(100));
    tick(&mut gs, &mut pool, &press(true), &rolls_at(0));
    land(&mut gs, &mut pool);
    // second row at 228..484: the two blocks right of 356 + 32 are trimmed
    tick(&mut gs, &mut pool, &no_keys(), &rolls_at(228));
    tick(&mut gs, &mut pool, &press(true), &rolls_at(0));
    assert_eq!(gs.drop_sprite_blocks, 3);
    let xs = top_row_xs(&pool);
    assert_eq!(xs, vec![228, 292, 356]);
    assert_eq!(gs.left_border, *xs.iter().min().unwrap());
    assert_eq!(gs.right_border, *xs.iter().max().unwrap());
    let trimmed = pool.get(8);
    assert_eq!((trimmed.bounds.w, trimmed.bounds.h), (0, 0));
    assert_eq!(trimmed.bounds.y, WINDOW_HEIGHT);
}

#[test]
fn trimming_the_whole_row_ends_the_game() {
    let (mut gs, mut pool) = easy_round();
    tick(&mut gs, &mut pool, &no_keys(), &rolls_at(0));
    tick(&mut gs, &mut pool, &press(true), &rolls_at(0));
    land(&mut gs, &mut pool);
    assert_eq!((gs.left_border, gs.right_border), (0, 256));
    tick(&mut gs, &mut pool, &no_keys(), &rolls_at(600));
    tick(&mut gs, &mut pool, &press(true), &rolls_at(0));
    assert_eq!(gs.drop_sprite_blocks, 0);
    land(&mut gs, &mut pool);
    assert_eq!(gs.screen, Screen::BlockPlay);
    let t = tick(&mut gs, &mut pool, &no_keys(), &rolls_at(0));
    assert_eq!(t, StatusText::Blank);
    assert_eq!(gs.screen, Screen::BlockGameOver);
    let t = tick(&mut gs, &mut pool, &no_keys(), &rolls_at(0));
    assert_eq!(t, StatusText::GameOver);
    tick(&mut gs, &mut pool, &InputSnapshot { c: true, ..no_keys() }, &rolls_at(0));
    assert_eq!(gs.screen, Screen::BlockSetup);
}

#[test]
fn full_stack_starts_next_level() {
    let (mut gs, mut pool) = easy_round();
    gs.game_mode = 3;
    gs.speed = 10;
    gs.drop_sprite_blocks = 3;
    gs.num_stacked = 12;
    gs.sprites_used = 36;
    // holding space keeps the finished level on screen
    tick(&mut gs, &mut pool, &press(true), &rolls_at(0));
    assert_eq!((gs.level, gs.num_stacked), (1, 12));
    tick(&mut gs, &mut pool, &no_keys(), &rolls_at(0));
    assert_eq!(gs.screen, Screen::BlockPlay);
    assert_eq!((gs.level, gs.speed, gs.drop_sprite_blocks), (2, 11, 3));
    assert_eq!((gs.num_stacked, gs.sprites_used), (0, 0));
    assert_eq!(gs.phase, BlockPhase::Spawning);
    assert!(sizes_ok(&pool));
    assert!((0..pool.len()).all(|i| pool.get(i).bounds.w == 0));
}

#[test]
fn round_laws_hold_over_random_play() {
    let (mut gs, mut pool) = easy_round();
    let mut frame: u64 = 0;
    let mut rounds = 0;
    while frame < 40_000 && rounds < 3 {
        let before = gs;
        let hold = frame % 97 == 0 || frame % 97 == 1;
        update(&mut gs, &mut pool, &press(hold));
        assert!(sizes_ok(&pool));
        if before.screen == Screen::BlockPlay && gs.screen == Screen::BlockPlay {
            if gs.level != before.level {
                assert!(before.num_stacked > 11);
                rounds += 1;
            } else {
                assert!(gs.left_border >= before.left_border);
                assert!(gs.right_border <= before.right_border);
                assert!(gs.drop_sprite_blocks <= before.drop_sprite_blocks);
                let landed = before.phase == BlockPhase::Falling && gs.phase == BlockPhase::Spawning;
                assert_eq!(gs.num_stacked, before.num_stacked + if landed { 1 } else { 0 });
            }
        }
        if gs.screen == Screen::BlockGameOver {
            assert_eq!(before.drop_sprite_blocks, 0);
            tick(&mut gs, &mut pool, &InputSnapshot { c: true, ..no_keys() }, &rolls_at(0));
            tick(&mut gs, &mut pool, &InputSnapshot { key1: true, ..no_keys() }, &rolls_at(0));
            rounds += 1;
        }
        frame += 1;
    }
}

fn block(x: i64, y: i64) -> Sprite {
    Sprite { bounds: Rect { x, y, w: SPRITE_SIZE, h: SPRITE_SIZE }, atlas: AtlasCell { col: 1, row: 0 } }
}

#[test]
fn borders_take_kept_extremes_beyond_field_width() {
    let (mut gs, mut pool) = easy_round();
    gs.phase = BlockPhase::Oscillating;
    gs.drop_sprite_blocks = 3;
    gs.row_start = 0;
    gs.sprites_used = 3;
    gs.left_border = 1000;
    gs.right_border = 1080;
    pool.set(0, block(1030, TOP_ROW_Y));
    pool.set(1, block(1040, TOP_ROW_Y));
    pool.set(2, block(1050, TOP_ROW_Y));
    tick(&mut gs, &mut pool, &press(true), &rolls_at(0));
    assert_eq!(gs.drop_sprite_blocks, 3);
    assert_eq!((gs.left_border, gs.right_border), (1030, 1050));
}

#[test]
fn fall_moves_every_sprite_in_the_band() {
    let (mut gs, mut pool) = easy_round();
    gs.phase = BlockPhase::Falling;
    gs.num_stacked = 2;
    gs.sprites_used = 15;
    gs.row_start = 10;
    pool.set(20, block(300, 500));
    pool.set(21, block(300, 100));
    tick(&mut gs, &mut pool, &no_keys(), &rolls_at(0));
    assert_eq!(gs.phase, BlockPhase::Falling);
    assert_eq!(pool.get(20).bounds.y, 498);
    assert_eq!(pool.get(21).bounds.y, 100);
    let mut guard = 0;
    while gs.phase == BlockPhase::Falling {
        tick(&mut gs, &mut pool, &no_keys(), &rolls_at(0));
        guard += 1;
        assert!(guard < 1000);
    }
    assert_eq!(gs.num_stacked, 3);
    assert!(pool.get(20).bounds.y < 128);
}
