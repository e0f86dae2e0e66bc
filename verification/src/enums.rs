//! The enumerations the host runtime sees, and their native codes.

pub mod antialias;
pub mod error;
pub mod fill_rule;
pub mod font_slant;
pub mod font_weight;
pub mod format;
pub mod line_cap;
pub mod line_join;
pub mod operator;
pub mod surface_type;
pub mod svg_unit;
