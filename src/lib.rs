//! Narrative and combat core of a small role-playing game: a dialogue state
//! machine with variable-gated branching and at-most-once command execution,
//! an item catalog, and an entity model with equipment and damage.
use vstd::prelude::*;

pub mod components;
pub mod events;
pub mod items;
pub mod maps;
pub mod scenes;
pub mod state;
pub mod static_commands;
pub mod table;
pub mod types;
pub mod utils;
pub mod world;

pub use table::{Duplicate, Table, TableKey};

verus! {

} // verus!
