//! Native codes outside an enumeration fall back to the documented
//! variant.

use xairo::Antialias;
use xairo::FillRule;
use xairo::FontSlant;
use xairo::FontWeight;
use xairo::Format;
use xairo::LineCap;
use xairo::LineJoin;
use xairo::Operator;
use xairo::SvgUnit;

#[test]
fn antialias_unknown_code_falls_back() {
    assert_eq!(Antialias::from_native(-1), Antialias::Default);
    assert_eq!(Antialias::from_native(7), Antialias::Default);
    assert_eq!(Antialias::from_native(9999), Antialias::Default);
}

#[test]
fn fill_rule_unknown_code_falls_back() {
    assert_eq!(FillRule::from_native(-1), FillRule::Winding);
    assert_eq!(FillRule::from_native(2), FillRule::Winding);
    assert_eq!(FillRule::from_native(9999), FillRule::Winding);
}

#[test]
fn font_slant_unknown_code_falls_back() {
    assert_eq!(FontSlant::from_native(-1), FontSlant::Normal);
    assert_eq!(FontSlant::from_native(3), FontSlant::Normal);
    assert_eq!(FontSlant::from_native(9999), FontSlant::Normal);
}

#[test]
fn font_weight_unknown_code_falls_back() {
    assert_eq!(FontWeight::from_native(-1), FontWeight::Normal);
    assert_eq!(FontWeight::from_native(2), FontWeight::Normal);
    assert_eq!(FontWeight::from_native(9999), FontWeight::Normal);
}

#[test]
fn format_unknown_code_falls_back() {
    assert_eq!(Format::from_native(-2), Format::Invalid);
    assert_eq!(Format::from_native(6), Format::Invalid);
    assert_eq!(Format::from_native(9999), Format::Invalid);
}

#[test]
fn line_cap_unknown_code_falls_back() {
    assert_eq!(LineCap::from_native(-1), LineCap::Butt);
    assert_eq!(LineCap::from_native(3), LineCap::Butt);
    assert_eq!(LineCap::from_native(9999), LineCap::Butt);
}

#[test]
fn line_join_unknown_code_falls_back() {
    assert_eq!(LineJoin::from_native(-1), LineJoin::Miter);
    assert_eq!(LineJoin::from_native(3), LineJoin::Miter);
    assert_eq!(LineJoin::from_native(9999), LineJoin::Miter);
}

#[test]
fn operator_unknown_code_falls_back() {
    assert_eq!(Operator::from_native(-1), Operator::Over);
    assert_eq!(Operator::from_native(29), Operator::Over);
    assert_eq!(Operator::from_native(9999), Operator::Over);
}

#[test]
fn svg_unit_unknown_code_falls_back() {
    assert_eq!(SvgUnit::from_native(-1), SvgUnit::User);
    assert_eq!(SvgUnit::from_native(10), SvgUnit::User);
    assert_eq!(SvgUnit::from_native(9999), SvgUnit::User);
}
