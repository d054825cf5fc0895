//! A small text adventure: a command grammar over a closed vocabulary, and the
//! deterministic state machine that turns commands into room descriptions.

pub mod engine;
pub mod entities;
pub mod game;
pub mod grammar;
pub mod interface;
pub mod rooms;
pub mod text;
pub mod vocab;
pub mod words;
pub mod world;
