pub mod engine;
pub mod input;
pub mod laws;
pub mod player;
