//! Core of an interactive 2D drawing editor: a scene store of entities and
//! components, a hierarchical mode state machine that interprets input
//! events, and a pipeline of command systems (snap, draw, delete) that apply
//! deferred scene mutations once per processed event.

pub mod add_arc_mode;
pub mod add_line_mode;
pub mod add_point_mode;
pub mod components;
pub mod context;
pub mod geometry;
pub mod keyboard_event_args;
pub mod laws;
pub mod model;
pub mod modes;
pub mod msg;
pub mod store;
pub mod systems;
