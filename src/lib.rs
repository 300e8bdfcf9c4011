//! A turn-based trading game: buy low, sell high, pay off the loan shark and
//! survive the streets for thirty days.
pub mod banner;
pub mod combat;
pub mod game;
pub mod goods;
pub mod loan;
pub mod market;
pub mod player;
mod random;
