//! Every variant survives the trip to its native code and back.

use xairo::Antialias;
use xairo::FillRule;
use xairo::FontSlant;
use xairo::FontWeight;
use xairo::Format;
use xairo::LineCap;
use xairo::LineJoin;
use xairo::Operator;
use xairo::SvgUnit;

#[test]
fn antialias_round_trip() {
    let all = [
        Antialias::Default,
        Antialias::Disabled,
        Antialias::Gray,
        Antialias::Subpixel,
        Antialias::Fast,
        Antialias::Good,
        Antialias::Best,
    ];
    for v in all {
        assert_eq!(Antialias::from_native(v.to_native()), v);
    }
}

#[test]
fn fill_rule_round_trip() {
    let all = [
        FillRule::Winding,
        FillRule::EvenOdd,
    ];
    for v in all {
        assert_eq!(FillRule::from_native(v.to_native()), v);
    }
}

#[test]
fn font_slant_round_trip() {
    let all = [
        FontSlant::Normal,
        FontSlant::Italic,
        FontSlant::Oblique,
    ];
    for v in all {
        assert_eq!(FontSlant::from_native(v.to_native()), v);
    }
}

#[test]
fn font_weight_round_trip() {
    let all = [
        FontWeight::Normal,
        FontWeight::Bold,
    ];
    for v in all {
        assert_eq!(FontWeight::from_native(v.to_native()), v);
    }
}

#[test]
fn format_round_trip() {
    let all = [
        Format::Invalid,
        Format::Argb32,
        Format::Rgb24,
        Format::A8,
        Format::A1,
        Format::Rgb16_565,
        Format::Rgb30,
    ];
    for v in all {
        assert_eq!(Format::from_native(v.to_native()), v);
    }
}

#[test]
fn line_cap_round_trip() {
    let all = [
        LineCap::Butt,
        LineCap::Round,
        LineCap::Square,
    ];
    for v in all {
        assert_eq!(LineCap::from_native(v.to_native()), v);
    }
}

#[test]
fn line_join_round_trip() {
    let all = [
        LineJoin::Miter,
        LineJoin::Round,
        LineJoin::Bevel,
    ];
    for v in all {
        assert_eq!(LineJoin::from_native(v.to_native()), v);
    }
}

#[test]
fn operator_round_trip() {
    let all = [
        Operator::Clear,
        Operator::Source,
        Operator::Over,
        Operator::In,
        Operator::Out,
        Operator::Atop,
        Operator::Dest,
        Operator::DestOver,
        Operator::DestIn,
        Operator::DestOut,
        Operator::DestAtop,
        Operator::Xor,
        Operator::Add,
        Operator::Saturate,
        Operator::Multiply,
        Operator::Screen,
        Operator::Overlay,
        Operator::Darken,
        Operator::Lighten,
        Operator::ColorDodge,
        Operator::ColorBurn,
        Operator::HardLight,
        Operator::SoftLight,
        Operator::Difference,
        Operator::Exclusion,
        Operator::HslHue,
        Operator::HslSaturation,
        Operator::HslColor,
        Operator::HslLuminosity,
    ];
    for v in all {
        assert_eq!(Operator::from_native(v.to_native()), v);
    }
}

#[test]
fn svg_unit_round_trip() {
    let all = [
        SvgUnit::User,
        SvgUnit::Em,
        SvgUnit::Ex,
        SvgUnit::Px,
        SvgUnit::In,
        SvgUnit::Cm,
        SvgUnit::Mm,
        SvgUnit::Pt,
        SvgUnit::Pc,
        SvgUnit::Percent,
    ];
    for v in all {
        assert_eq!(SvgUnit::from_native(v.to_native()), v);
    }
}
