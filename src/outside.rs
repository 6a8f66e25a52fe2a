//! Declarations of the iced types that the settings carry, and what this
//! library relies on of them.
use vstd::prelude::*;

use iced_winit::Settings as WinitSettings;

verus! {

/// iced's font descriptor: four public fields, read as they stand.
#[verifier::external_type_specification]
pub struct ExFont(iced_winit::core::Font);

/// iced's font family.
#[verifier::external_type_specification]
pub struct ExFamily(iced_winit::core::font::Family);

/// iced's font weight.
#[verifier::external_type_specification]
pub struct ExWeight(iced_winit::core::font::Weight);

/// iced's font stretch.
#[verifier::external_type_specification]
pub struct ExStretch(iced_winit::core::font::Stretch);

/// iced's font style.
#[verifier::external_type_specification]
pub struct ExStyle(iced_winit::core::font::Style);

/// iced_winit's settings: an identifier and the fonts to load on boot, two
/// public fields read as they stand.
#[verifier::external_type_specification]
pub struct ExWinitSettings(WinitSettings);

/// iced's amount of logical pixels, a floating-point value kept opaque here.
#[verifier::external_type_specification]
#[verifier::external_body]
pub struct ExPixels(iced_winit::core::Pixels);

/// The font that iced's `Font::DEFAULT` names: sans-serif, normal weight,
/// normal stretch, normal style.
pub open spec fn sans_serif() -> iced_winit::core::Font {
    iced_winit::core::Font {
        family: iced_winit::core::font::Family::SansSerif,
        weight: iced_winit::core::font::Weight::Normal,
        stretch: iced_winit::core::font::Stretch::Normal,
        style: iced_winit::core::font::Style::Normal,
    }
}

/// Relies on the derived `Default` of iced's `Font`: each of its four enums
/// marks the variant that `sans_serif` names as `#[default]`.
pub assume_specification[ <iced_winit::core::Font as std::default::Default>::default ]() -> (r: iced_winit::core::Font)
    ensures
        r == sans_serif(),
;

/// The amount of pixels that iced's `Pixels::from(u16)` makes of a whole
/// number: the number, widened to a float.
pub uninterp spec fn pixels_from_u16(amount: u16) -> iced_winit::core::Pixels;

/// Relies on iced's `impl From<u16> for Pixels`, which depends on its
/// argument alone.
pub assume_specification[ <iced_winit::core::Pixels as std::convert::From<u16>>::from ](amount: u16) -> (r: iced_winit::core::Pixels)
    ensures
        r == pixels_from_u16(amount),
;

/// Relies on the derived `Clone` of iced's `Font`, a `Copy` type: the clone
/// is the font itself.
pub assume_specification[ <iced_winit::core::Font as std::clone::Clone>::clone ](f: &iced_winit::core::Font) -> (r: iced_winit::core::Font)
    ensures
        r == *f,
;

/// Relies on the derived `Clone` of iced's `Pixels`, a `Copy` type: the
/// clone is the amount itself.
pub assume_specification[ <iced_winit::core::Pixels as std::clone::Clone>::clone ](p: &iced_winit::core::Pixels) -> (r: iced_winit::core::Pixels)
    ensures
        r == *p,
;

} // verus!
