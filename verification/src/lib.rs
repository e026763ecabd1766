//! Game logic of a small top-down shooter: named lookup tables (the PICO-8
//! palette and the sprite sheet), bullet trails, the particle and enemy pools,
//! the player's control and animation state, and weapon volleys.
//!
//! Everything that moves in continuous space (positions, velocities, timers)
//! and everything that draws or reads input stays with the program that embeds
//! this library; the library keeps the discrete state and the rules over it.

pub mod table;
pub mod palette;
pub mod trail;
pub mod particle;
pub mod enemy;
pub mod weapon;
pub mod rumia;
