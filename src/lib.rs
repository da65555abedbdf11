//! Fixed-point bonding curve over the integral of a logistic density, with
//! the game rules that move value along it.

pub mod lut;
pub mod rounding;
pub mod table;
pub mod evaluator;
pub mod delta;
pub mod capacity;
pub mod grid;
pub mod types;
pub mod consts;
pub mod board;
pub mod player;
pub mod fees;
pub mod movement;
pub mod action;
pub mod engine;
pub mod instruction;
