//! Frame-driven sprite animation and the chapter-by-chapter narrative of a
//! small exploration game, with the rules that connect them to the engine.

pub mod animation;
pub mod movement;
pub mod narrative;
pub mod pairing;
pub mod population;
pub mod screen;
pub mod timer;
