pub mod combat;
pub mod config;
pub mod cursor;
pub mod game;
pub mod lifecycle;
pub mod merge;
pub mod model;
pub mod rng;
