//! Rules engine for the calamity, ship and hand-limit phases of an
//! Advanced-Civilization-style board game: the per-calamity state machines,
//! the interactive selection states that drive a human player's choices, and
//! the allocation rules that divide unit-point losses among victims.
pub mod entity;
pub mod cards;
pub mod util;
pub mod assoc;
pub mod calamities;
pub mod context;
pub mod modifiers;
pub mod components;
pub mod selection;
pub mod ships;
pub mod ship_construction;
pub mod commodity_shed;
pub mod round_summary;
pub mod resolution;
pub mod ship_phase;
