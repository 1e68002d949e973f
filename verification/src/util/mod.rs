//! Text, numbers and dates.

pub mod calendar;
pub mod fmt;
pub mod number;
pub mod split;
pub mod text;

pub use fmt::{format_iso, format_relative, short_hash};
