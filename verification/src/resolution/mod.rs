//! The decisions of the Resolve Calamities phase: which calamity comes next,
//! the state each one starts in, and, step by step, what each calamity does
//! to the board given what the board holds.
pub mod order;
pub mod dispatch;
pub mod board;
pub mod players;
pub mod volcano;
pub mod losses;
pub mod secondary;
pub mod flood;
pub mod famine;
pub mod barbarians;
pub mod cities;
pub mod epidemic;
pub mod civil_war;
pub mod monotheism;
pub mod unit_loss;
pub mod phase;
pub mod transfers;
