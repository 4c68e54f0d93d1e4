//! A small game on a toroidal grid: one player moves around, wrapping at the
//! edges, and scores a point each time it stands on the item.

pub mod command;
pub mod game;
pub mod grid;
pub mod render;
