//! Core logic of a one-button rhythm-combat game.
//!
//! A pointer sweeps around a circular action spinner in time with the music.
//! The library models the sweep as an integer angle in tenths of a degree,
//! detects when the sweep crosses fixed target angles (exactly once per
//! revolution), highlights the action zone under the pointer, and resolves a
//! button press into an attack, a defend, or a miss, subject to a per-turn
//! lock.  Plain combat bookkeeping (health, damage, levels, countdown, sprite
//! frames) lives beside it.  Rendering, audio and input belong to the caller.

pub mod angle;
pub mod components;
pub mod enemy;
pub mod fight;
pub mod music;
pub mod resources;
pub mod spinner;
pub mod types;
