//! A number-guessing game with a verified bisection player, a few ownership
//! demonstrations, and the plain data used by the JSON examples.

pub mod bisection;
pub mod game;
pub mod ownership;
pub mod records;
