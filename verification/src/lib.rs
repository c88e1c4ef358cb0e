//! A catalog of game definitions (items, mobs, props, spells, spawn and loot
//! tables, factions) and the factory that makes entities of them.

pub mod color;
pub mod components;
pub mod dice;
pub mod gamesystem;
pub mod name_map;
pub mod random_table;
pub mod raws;
pub mod sequence;
pub mod text;
pub mod toolkit;
pub mod vendor;
pub mod world;
