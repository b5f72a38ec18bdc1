//! The simulation core of a classic table tennis arcade game: a
//! deterministic, integer-arithmetic match engine — finite state machine,
//! ball physics, collision resolution and scoring — with every tick a
//! proved total function of the previous match value, the elapsed time and
//! the tick's intents. Windowing, rendering, audio and input polling are
//! thin collaborators outside this crate.

pub mod ball;
pub mod config;
pub mod geom;
pub mod laws;
pub mod pong;
pub mod racket;
pub mod rng;
pub mod side;
