//! Gameplay rules of a small arcade tennis game: sprite animation playback,
//! player movement and stance, button input, scoring and court geometry.
//! Rendering, physics and the engine's scheduling live outside this crate.

pub mod animation;
pub mod ball;
pub mod court;
pub mod input;
pub mod level;
pub mod player;
