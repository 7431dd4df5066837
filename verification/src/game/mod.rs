//! The driving game: scenes, entities, lane geometry, spawner, updater and
//! command handling.
pub mod collide;
pub mod command;
pub mod dice;
pub mod entities;
pub mod frame;
pub mod input;
pub mod lane;
pub mod laws;
pub mod motion;
pub mod scene;
pub mod spawn;
pub mod state;
pub mod update;
