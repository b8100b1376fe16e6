pub mod input;
pub mod lines;
pub mod movement;
pub mod spawning;
pub mod time;
