//! Procedural world generation for a tile-based role-playing game, with the
//! rules of play that read and change the generated world.
//!
//! A world is a rectangular grid of tiles in two layers (terrain below,
//! objects above) together with an occupancy index that records which cells
//! are blocked and by which logical object.  Generation is a fixed pipeline:
//! terrain from one noise field, trees from a second, then a sparse scatter
//! of flowers.  Every function carries a contract that the verifier proves;
//! `laws` states what follows for every generated world.

pub mod comfort_config;
pub mod crafting;
pub mod entity_tile_pos;
pub mod game_state;
pub mod grid;
pub mod interact;
pub mod inventory;
pub mod item_util;
pub mod laws;
pub mod noise;
pub mod occupancy;
pub mod player;
pub mod random;
pub mod world_gen;
