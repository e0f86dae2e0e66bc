//! The surface kinds the binding names, and the fall-back for the many
//! native kinds it does not.

use xairo::SurfaceType;

#[test]
fn named_surface_type_codes() {
    assert_eq!(SurfaceType::from_native(0), SurfaceType::Image);
    assert_eq!(SurfaceType::from_native(1), SurfaceType::Pdf);
    assert_eq!(SurfaceType::from_native(2), SurfaceType::Ps);
    assert_eq!(SurfaceType::from_native(10), SurfaceType::Svg);
}

#[test]
fn unnamed_surface_type_codes_fall_back_to_image() {
    // Kinds cairo defines but the binding never constructs: Xlib, Quartz,
    // recording, subsurface.
    assert_eq!(SurfaceType::from_native(3), SurfaceType::Image);
    assert_eq!(SurfaceType::from_native(6), SurfaceType::Image);
    assert_eq!(SurfaceType::from_native(16), SurfaceType::Image);
    assert_eq!(SurfaceType::from_native(23), SurfaceType::Image);
    assert_eq!(SurfaceType::from_native(-1), SurfaceType::Image);
}
