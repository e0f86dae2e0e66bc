//! Marshalling core of a binding to the cairo 2D graphics engine.
//!
//! The binding hands values between a host runtime and the native library.
//! Everything the native side exchanges with this crate is a plain value: an
//! enumeration is its C `int` code, an index is an integer. This crate owns
//! the value-level part of that exchange — the enumerations the host sees,
//! their translation to and from the native codes, and the validation of
//! indices — with the translation proved exact and total. The native calls
//! themselves (drawing, surfaces, fonts) live outside it.

mod enums;
mod mesh;

pub use enums::antialias::Antialias;
pub use enums::antialias::antialias_code;
pub use enums::antialias::antialias_from_code;
pub use enums::antialias::is_antialias_code;
pub use enums::antialias::lemma_antialias_round_trip;
pub use enums::error::Error;
pub use enums::error::error_from_status;
pub use enums::error::is_mapped_error_status;
pub use enums::error::lemma_error_status_injective;
pub use enums::fill_rule::FillRule;
pub use enums::fill_rule::fill_rule_code;
pub use enums::fill_rule::fill_rule_from_code;
pub use enums::fill_rule::is_fill_rule_code;
pub use enums::fill_rule::lemma_fill_rule_round_trip;
pub use enums::font_slant::FontSlant;
pub use enums::font_slant::font_slant_code;
pub use enums::font_slant::font_slant_from_code;
pub use enums::font_slant::is_font_slant_code;
pub use enums::font_slant::lemma_font_slant_round_trip;
pub use enums::font_weight::FontWeight;
pub use enums::font_weight::font_weight_code;
pub use enums::font_weight::font_weight_from_code;
pub use enums::font_weight::is_font_weight_code;
pub use enums::font_weight::lemma_font_weight_round_trip;
pub use enums::format::Format;
pub use enums::format::format_code;
pub use enums::format::format_from_code;
pub use enums::format::is_format_code;
pub use enums::format::lemma_format_round_trip;
pub use enums::line_cap::LineCap;
pub use enums::line_cap::line_cap_code;
pub use enums::line_cap::line_cap_from_code;
pub use enums::line_cap::is_line_cap_code;
pub use enums::line_cap::lemma_line_cap_round_trip;
pub use enums::line_join::LineJoin;
pub use enums::line_join::line_join_code;
pub use enums::line_join::line_join_from_code;
pub use enums::line_join::is_line_join_code;
pub use enums::line_join::lemma_line_join_round_trip;
pub use enums::operator::Operator;
pub use enums::operator::operator_code;
pub use enums::operator::operator_from_code;
pub use enums::operator::is_operator_code;
pub use enums::operator::lemma_operator_round_trip;
pub use enums::surface_type::SurfaceType;
pub use enums::surface_type::surface_type_from_code;
pub use enums::surface_type::is_surface_type_code;
pub use enums::surface_type::lemma_surface_type_injective;
pub use enums::svg_unit::SvgUnit;
pub use enums::svg_unit::svg_unit_code;
pub use enums::svg_unit::svg_unit_from_code;
pub use enums::svg_unit::is_svg_unit_code;
pub use enums::svg_unit::lemma_svg_unit_round_trip;
pub use mesh::MeshCorner;
pub use mesh::mesh_corner;
pub use mesh::mesh_corner_code;
pub use mesh::lemma_mesh_corner_code_injective;
