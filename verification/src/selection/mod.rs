pub mod calamity;
pub mod budget;
pub mod flood;
pub mod famine;
pub mod epidemic;
pub mod unit_loss;
pub mod civil_war;
pub mod monotheism;
