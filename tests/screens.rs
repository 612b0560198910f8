use block_games::frame::{tick, update, Rolls, StatusText};
use block_games::random::draw_rolls;
use block_games::shooter::Nudge;
use block_games::sprite::{AtlasCell, SpritePool};
use block_games::state::{init_game_state, BlockPhase, GameState, InputSnapshot, Screen};

fn none() -> InputSnapshot {
    InputSnapshot {
        escape: false,
        key1: false,
        key2: false,
        key3: false,
        a: false,
        b: false,
        c: false,
        left: false,
        right: false,
        space: false,
    }
}

fn rolls() -> Rolls {
    let n = Nudge { amount: 0, leftward: false };
    Rolls { row_offset: 200, color: AtlasCell { col: 2, row: 1 }, nudge1: n, nudge2: n, nudge3: n }
}

fn all_inactive(pool: &SpritePool) -> bool {
    (0..pool.len()).all(|i| pool.get(i).bounds.w == 0 && pool.get(i).bounds.h == 0)
}

fn escape_from(mut gs: GameState, mut pool: SpritePool) {
    let t = tick(&mut gs, &mut pool, &InputSnapshot { escape: true, a: true, ..none() }, &rolls());
    assert_eq!(t, StatusText::Title);
    assert_eq!(gs.screen, Screen::Title);
    assert!(all_inactive(&pool));
}

#[test]
fn escape_resets_from_every_screen() {
    let mut gs = init_game_state();
    let mut pool = SpritePool::new();
    escape_from(gs, SpritePool::new());
    // mid block round, row on screen
    tick(&mut gs, &mut pool, &InputSnapshot { a: true, ..none() }, &rolls());
    escape_from(gs, SpritePool::new());
    tick(&mut gs, &mut pool, &InputSnapshot { key3: true, ..none() }, &rolls());
    tick(&mut gs, &mut pool, &none(), &rolls());
    assert_eq!(gs.phase, BlockPhase::Oscillating);
    assert!(!all_inactive(&pool));
    let mut copy = SpritePool::new();
    let mut g2 = init_game_state();
    tick(&mut g2, &mut copy, &InputSnapshot { a: true, ..none() }, &rolls());
    tick(&mut g2, &mut copy, &InputSnapshot { key3: true, ..none() }, &rolls());
    tick(&mut g2, &mut copy, &none(), &rolls());
    escape_from(g2, copy);
    // shooter with bullets in flight
    let mut g3 = init_game_state();
    let mut p3 = SpritePool::new();
    tick(&mut g3, &mut p3, &InputSnapshot { b: true, ..none() }, &rolls());
    tick(&mut g3, &mut p3, &InputSnapshot { space: true, ..none() }, &rolls());
    assert_eq!(g3.screen, Screen::SpacePlay);
    assert!(!all_inactive(&p3));
    escape_from(g3, p3);
    // game over screen
    let mut g4 = init_game_state();
    g4.screen = Screen::BlockGameOver;
    escape_from(g4, SpritePool::new());
}

#[test]
fn title_waits_without_keys() {
    let mut gs = init_game_state();
    let mut pool = SpritePool::new();
    let before = gs;
    let t = update(&mut gs, &mut pool, &none());
    assert_eq!(t, StatusText::Title);
    assert_eq!(gs, before);
}

#[test]
fn title_b_starts_shooter_fresh() {
    let mut gs = init_game_state();
    gs.score = 7;
    gs.level = 4;
    let mut pool = SpritePool::new();
    tick(&mut gs, &mut pool, &InputSnapshot { b: true, ..none() }, &rolls());
    assert_eq!(gs.screen, Screen::SpaceSetup);
    assert_eq!((gs.score, gs.level, gs.target_x, gs.cur_x), (0, 1, 500, 512));
    let t = tick(&mut gs, &mut pool, &none(), &rolls());
    assert_eq!(t, StatusText::Score(0));
    assert_eq!(gs.screen, Screen::SpacePlay);
}

#[test]
fn setup_keeps_chosen_difficulty_until_a_digit() {
    let mut gs = init_game_state();
    gs.game_mode = 2;
    gs.screen = Screen::BlockSetup;
    let mut pool = SpritePool::new();
    tick(&mut gs, &mut pool, &none(), &rolls());
    assert_eq!(gs.screen, Screen::BlockSetup);
    assert_eq!((gs.game_mode, gs.drop_sprite_blocks, gs.speed), (2, 4, 6));
    tick(&mut gs, &mut pool, &InputSnapshot { key3: true, ..none() }, &rolls());
    assert_eq!(gs.screen, Screen::BlockPlay);
    assert_eq!((gs.game_mode, gs.drop_sprite_blocks, gs.speed), (3, 3, 10));
}

#[test]
fn drawn_rolls_stay_in_their_ranges() {
    let mut gs = init_game_state();
    for width in 1..=5u32 {
        gs.drop_sprite_blocks = width;
        for _ in 0..200 {
            let r = draw_rolls(&gs);
            assert!((r.row_offset as i64) + 64 * (width as i64) < 1024);
            assert!(r.color.col == 1 || r.color.col == 2);
            assert!(r.color.row < 10);
            for n in [r.nudge1, r.nudge2, r.nudge3] {
                assert!(n.amount < 10);
            }
        }
    }
}

#[test]
fn space_game_over_screen_is_idle() {
    let mut gs = init_game_state();
    gs.screen = Screen::SpaceGameOver;
    let mut pool = SpritePool::new();
    let t = tick(&mut gs, &mut pool, &InputSnapshot { space: true, ..none() }, &rolls());
    assert_eq!(t, StatusText::Blank);
    assert_eq!(gs.screen, Screen::SpaceGameOver);
}

