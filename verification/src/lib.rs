//! Reads a weapon out of the text that the game client copies from an item's
//! tooltip, and computes its damage per second, alone and under every choice
//! of runes for its sockets.
//!
//! [`parser::parse`] reads the text on a table of the known weapon bases.
//! The item that it gives becomes a [`weapon::Weapon`], whose damage per
//! second [`weapon::Weapon::dps`] computes on the same table, and whose
//! choices of runes [`weapon::Weapon::with_different_runes`] ranks. The
//! table is the caller's: nothing here is global, and nothing is kept
//! between calls.
//!
//! Every function states what it returns in terms of the functions of the
//! same module that are marked `spec`, and is proved to return that.

pub mod classify;
pub mod decoder;
pub mod dps;
pub mod flow;
pub mod parser;
pub mod ranking;
pub mod rune;
pub mod scanner;
pub mod text;
pub mod weapon;
