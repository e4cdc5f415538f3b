//! The Doxygen XML formats and their rendering.

pub mod compound;
pub mod index;
pub mod nodes;
pub mod text;
pub mod render_rules;
pub mod render_laws;
pub mod render;
pub mod describe;
pub mod graph;
pub mod store;
