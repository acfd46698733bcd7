//! Game logic of a metroidvania platformer: tile metadata parsing, room tiles and collisions,
//! room transitions, story progression, creatures, player controls, menus and text animation,
//! path and text utilities.

pub mod game;
