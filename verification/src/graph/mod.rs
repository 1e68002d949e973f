//! The graph of a history: lanes for the commits, and glyphs for the lanes.

pub mod lanes;
pub mod lemmas;
pub mod render;

pub use lanes::{compute_layout, GraphNode};
pub use render::graph_prefix;
