//! The remote-procedure boundary: the battle-entry parameter table.

pub mod enter_battle;
