//! Simulation core of an arcade shooter: a ship, waves of enemies,
//! projectiles, ammo, score and the screens around them, advanced one frame
//! at a time.

pub mod ammo;
pub mod collision;
pub mod draw;
pub mod enemy;
pub mod frame;
pub mod game;
pub mod geometry;
pub mod input;
pub mod laws;
pub mod projectile;
pub mod random;
pub mod score;
pub mod ship;
pub mod state;
pub mod wave;
