//! Core of an interactive node-and-edge diagram editor.
//!
//! The library owns the graph store (vertices with positions and labels,
//! directed edges), interprets pointer gestures into graph mutations, and
//! keeps a bounded undo/redo ledger of inverse actions so that every
//! mutation is reversible.  Rendering, windowing and coordinate conversion
//! are left to the surrounding application: the functions here consume
//! world-space coordinates, button identities and clock readings as plain
//! values.

pub mod components;
pub mod constants;
pub mod events;
pub mod graph;
pub mod laws;
pub mod mutator;
pub mod resources;
pub mod session;
pub mod undo_redo;
