//! A turn-based text-command interpreter for a small interactive-fiction
//! engine: word matching, command and parameter resolution, dispatch, and
//! the world state that commands act upon.
pub mod builtins;
pub mod commands;
pub mod game;
pub mod named;
pub mod objects;
pub mod places;
pub mod rooms;
pub mod selectors;
pub mod utils;
pub mod world;
