//! Encounter engine of a turn-based bullet-hell battle, on fixed-point integers.

pub mod fixed;
pub mod geometry;
pub mod board;
pub mod physics;
pub mod attacks;
pub mod dodging;
pub mod death;
pub mod fight;
pub mod health;
pub mod opponent;
pub mod text;
pub mod selection;
pub mod menu;
pub mod decisions;
pub mod despawn;
pub mod player;
pub mod battle;
pub mod stats;
