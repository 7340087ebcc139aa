//! The simulation core of a small top-down arena shooter.
//!
//! A player walks a plane and fires projectiles while waves of enemies chase
//! it. This crate holds the rules of one simulation tick and of the flow from
//! the start menu through play to the game-over screen; drawing, assets and
//! the keyboard belong to the program around it.

pub mod bullet;
pub mod camera;
pub mod count;
pub mod game;
pub mod movement;
pub mod player;
mod sequences;
pub mod text;
pub mod transform;
pub mod zombies;
