//! Frame-driven simulation of two arcade minigames reached from a title screen:
//! a block-stacking game and a target-shooting game. Each tick reads a snapshot
//! of held keys, updates one `GameState` and a fixed-capacity `SpritePool`, and
//! returns the line of text to show.

/// Tunable constants: field size, sprite size, speeds, limits.
pub mod config;
/// Sprites and the fixed-capacity pool that holds them.
pub mod sprite;
/// The state kept between ticks, and its invariant.
pub mod state;
/// Spawning, oscillating, dropping and falling rows of the block game.
pub mod block;
/// Target, ship and bullets of the shooter game.
pub mod shooter;
/// Screen dispatch: one tick of the whole simulation.
pub mod frame;
/// Random draws for a tick.
pub mod random;
/// Rules that every tick keeps.
pub mod laws;
