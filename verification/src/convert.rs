//! From a colour as a theme writes it to the working space: which notations
//! are understood, what stands in for a channel that was left out, and by
//! which route the numbers reach the working space.
//!
//! Channels are whole millionths of the unit the notation counts in (degrees
//! for a hue, one for a fraction); the three channels of the legacy notation
//! are bytes.

use vstd::prelude::*;
use crate::color::{clamp, Color, ColorValue, UNIT};

verus! {

/// The colour spaces that the `color()` notation can name.
#[derive(Copy, Clone, Debug, PartialEq, Eq, Structural)]
pub enum PredefinedColorSpace {
    Srgb,
    SrgbLinear,
    DisplayP3,
    A98Rgb,
    ProphotoRgb,
    Rec2020,
    XyzD50,
    XyzD65,
}

/// A colour value as it was read, before any conversion. A channel that the
/// notation allows to be left out is `None` where it was.
#[derive(Copy, Clone, Debug, PartialEq, Eq)]
#[allow(inconsistent_fields)]
pub enum CssColor {
    CurrentColor,
    Rgba { red: u8, green: u8, blue: u8, alpha: i32 },
    Hsl { hue: Option<i32>, saturation: Option<i32>, lightness: Option<i32>, alpha: Option<i32> },
    Hwb { hue: Option<i32>, whiteness: Option<i32>, blackness: Option<i32>, alpha: Option<i32> },
    Lab { lightness: Option<i32>, a: Option<i32>, b: Option<i32>, alpha: Option<i32> },
    Lch { lightness: Option<i32>, chroma: Option<i32>, hue: Option<i32>, alpha: Option<i32> },
    Oklab { lightness: Option<i32>, a: Option<i32>, b: Option<i32>, alpha: Option<i32> },
    Oklch { lightness: Option<i32>, chroma: Option<i32>, hue: Option<i32>, alpha: Option<i32> },
    ColorFunction {
        color_space: PredefinedColorSpace,
        c1: Option<i32>,
        c2: Option<i32>,
        c3: Option<i32>,
        alpha: Option<i32>,
    },
}

/// The encodings between stored channel values and linear light.
#[derive(Copy, Clone, Debug, PartialEq, Eq, Structural)]
pub enum Transfer {
    Srgb,
    A98,
    ProPhoto,
    Rec2020,
}

/// The reference whites that a colour can be stated against.
#[derive(Copy, Clone, Debug, PartialEq, Eq, Structural)]
pub enum WhitePoint {
    D50,
    D65,
}

/// The coordinate systems whose numbers still have to be carried over into
/// the working space.
#[derive(Copy, Clone, Debug, PartialEq, Eq, Structural)]
pub enum ColorModel {
    /// Hue, saturation, lightness: a cylinder over sRGB.
    Hsl,
    /// Hue, whiteness, blackness: a cylinder over sRGB.
    Hwb,
    /// CIE lightness and two chroma axes.
    Lab,
    /// CIE lightness, chroma and hue.
    Lch,
    /// The working space in its cylindrical form.
    Oklch,
    /// Three channels of a predefined space.
    Space(PredefinedColorSpace),
}

impl ColorModel {
    /// The encoding that has to be undone before the channels are linear
    /// light, if there is one.
    pub open spec fn spec_transfer(self) -> Option<Transfer> {
        match self {
            ColorModel::Hsl | ColorModel::Hwb => Some(Transfer::Srgb),
            ColorModel::Space(PredefinedColorSpace::Srgb) => Some(Transfer::Srgb),
            ColorModel::Space(PredefinedColorSpace::DisplayP3) => Some(Transfer::Srgb),
            ColorModel::Space(PredefinedColorSpace::A98Rgb) => Some(Transfer::A98),
            ColorModel::Space(PredefinedColorSpace::ProphotoRgb) => Some(Transfer::ProPhoto),
            ColorModel::Space(PredefinedColorSpace::Rec2020) => Some(Transfer::Rec2020),
            _ => None,
        }
    }

    /// The white that the channels are stated against. Only ProPhoto and the
    /// D50 form of CIE XYZ are adapted; everything else is taken as D65.
    pub open spec fn spec_white_point(self) -> WhitePoint {
        match self {
            ColorModel::Space(PredefinedColorSpace::ProphotoRgb) => WhitePoint::D50,
            ColorModel::Space(PredefinedColorSpace::XyzD50) => WhitePoint::D50,
            _ => WhitePoint::D65,
        }
    }

    /// The encoding that has to be undone before the channels are linear
    /// light, if there is one.
    #[verifier::when_used_as_spec(spec_transfer)]
    pub fn transfer(self) -> (t: Option<Transfer>)
        ensures
            t == self.spec_transfer(),
    {
        match self {
            ColorModel::Hsl | ColorModel::Hwb => Some(Transfer::Srgb),
            ColorModel::Space(space) => match space {
                PredefinedColorSpace::Srgb | PredefinedColorSpace::DisplayP3 => Some(
                    Transfer::Srgb,
                ),
                PredefinedColorSpace::A98Rgb => Some(Transfer::A98),
                PredefinedColorSpace::ProphotoRgb => Some(Transfer::ProPhoto),
                PredefinedColorSpace::Rec2020 => Some(Transfer::Rec2020),
                _ => None,
            },
            _ => None,
        }
    }

    /// The white that the channels are stated against.
    #[verifier::when_used_as_spec(spec_white_point)]
    pub fn white_point(self) -> (w: WhitePoint)
        ensures
            w == self.spec_white_point(),
    {
        match self {
            ColorModel::Space(PredefinedColorSpace::ProphotoRgb) => WhitePoint::D50,
            ColorModel::Space(PredefinedColorSpace::XyzD50) => WhitePoint::D50,
            _ => WhitePoint::D65,
        }
    }
}

/// What has to be done with a colour value that is understood.
#[derive(Copy, Clone, Debug, PartialEq, Eq)]
pub enum Conversion {
    /// Nothing: the value was written in the working space.
    Ready(Color),
    /// The legacy notation: three sRGB bytes and an opacity.
    Bytes { red: u8, green: u8, blue: u8, alpha: i32 },
    /// Three channels of `model` and an opacity.
    Channels { model: ColorModel, c1: i32, c2: i32, c3: i32, alpha: i32 },
}

/// The mathematical value of a [`Conversion`].
pub enum ConversionValue {
    Ready(ColorValue),
    Bytes { red: u8, green: u8, blue: u8, alpha: int },
    Channels { model: ColorModel, c1: int, c2: int, c3: int, alpha: int },
}

impl View for Conversion {
    type V = ConversionValue;

    open spec fn view(&self) -> ConversionValue {
        match *self {
            Conversion::Ready(color) => ConversionValue::Ready(color@),
            Conversion::Bytes { red, green, blue, alpha } => ConversionValue::Bytes {
                red,
                green,
                blue,
                alpha: alpha as int,
            },
            Conversion::Channels { model, c1, c2, c3, alpha } => ConversionValue::Channels {
                model,
                c1: c1 as int,
                c2: c2 as int,
                c3: c3 as int,
                alpha: alpha as int,
            },
        }
    }
}

/// The opacity that a colour is given: what was written, kept between
/// transparent and opaque, and opaque where nothing was written.
pub open spec fn opacity(alpha: Option<i32>) -> int {
    match alpha {
        Some(alpha) => clamp(alpha as int, 0, UNIT as int),
        None => UNIT as int,
    }
}

/// The three channels of `model` with their opacity, if none of the three was
/// left out.
pub open spec fn channels(
    model: ColorModel,
    c1: Option<i32>,
    c2: Option<i32>,
    c3: Option<i32>,
    alpha: Option<i32>,
) -> Option<ConversionValue> {
    if c1 is Some && c2 is Some && c3 is Some {
        Some(
            ConversionValue::Channels {
                model,
                c1: c1->0 as int,
                c2: c2->0 as int,
                c3: c3->0 as int,
                alpha: opacity(alpha),
            },
        )
    } else {
        None
    }
}

/// What [`convert_color`] answers. `currentColor` means nothing where no text
/// is drawn, and a channel that was left out has no value to stand in for it:
/// both are refused. Only the opacity has a default.
pub open spec fn conversion_of(color: CssColor) -> Option<ConversionValue> {
    match color {
        CssColor::CurrentColor => None,
        CssColor::Rgba { red, green, blue, alpha } => Some(
            ConversionValue::Bytes { red, green, blue, alpha: opacity(Some(alpha)) },
        ),
        CssColor::Hsl { hue, saturation, lightness, alpha } => channels(
            ColorModel::Hsl,
            hue,
            saturation,
            lightness,
            alpha,
        ),
        CssColor::Hwb { hue, whiteness, blackness, alpha } => channels(
            ColorModel::Hwb,
            hue,
            whiteness,
            blackness,
            alpha,
        ),
        CssColor::Lab { lightness, a, b, alpha } => channels(ColorModel::Lab, lightness, a, b, alpha),
        CssColor::Lch { lightness, chroma, hue, alpha } => channels(
            ColorModel::Lch,
            lightness,
            chroma,
            hue,
            alpha,
        ),
        CssColor::Oklab { lightness, a, b, alpha } => if lightness is Some && a is Some && b is Some {
            Some(
                ConversionValue::Ready(
                    ColorValue {
                        l: lightness->0 as int,
                        a: a->0 as int,
                        b: b->0 as int,
                        alpha: opacity(alpha),
                    },
                ),
            )
        } else {
            None
        },
        CssColor::Oklch { lightness, chroma, hue, alpha } => channels(
            ColorModel::Oklch,
            lightness,
            chroma,
            hue,
            alpha,
        ),
        CssColor::ColorFunction { color_space, c1, c2, c3, alpha } => channels(
            ColorModel::Space(color_space),
            c1,
            c2,
            c3,
            alpha,
        ),
    }
}

/// The opacity that a colour is given.
fn resolve_alpha(alpha: Option<i32>) -> (r: i32)
    ensures
        r == opacity(alpha),
{
    match alpha {
        Some(alpha) => if alpha < 0 {
            0
        } else if alpha > UNIT {
            UNIT
        } else {
            alpha
        },
        None => UNIT,
    }
}

/// Three channels of `model` with their opacity.
fn resolve_channels(
    model: ColorModel,
    c1: Option<i32>,
    c2: Option<i32>,
    c3: Option<i32>,
    alpha: Option<i32>,
) -> (r: Option<Conversion>)
    ensures
        match r {
            Some(conversion) => channels(model, c1, c2, c3, alpha) == Some(conversion@),
            None => channels(model, c1, c2, c3, alpha) is None,
        },
{
    match (c1, c2, c3) {
        (Some(c1), Some(c2), Some(c3)) => Some(
            Conversion::Channels { model, c1, c2, c3, alpha: resolve_alpha(alpha) },
        ),
        _ => None,
    }
}

/// Decides what becomes of a colour value: `None` where it cannot be used,
/// the finished colour where it was written in the working space, and else
/// the channels with the model that they have to be converted from.
pub fn convert_color(color: CssColor) -> (r: Option<Conversion>)
    ensures
        match r {
            Some(conversion) => conversion_of(color) == Some(conversion@),
            None => conversion_of(color) is None,
        },
{
    match color {
        CssColor::CurrentColor => None,
        CssColor::Rgba { red, green, blue, alpha } => Some(
            Conversion::Bytes { red, green, blue, alpha: resolve_alpha(Some(alpha)) },
        ),
        CssColor::Hsl { hue, saturation, lightness, alpha } => resolve_channels(
            ColorModel::Hsl,
            hue,
            saturation,
            lightness,
            alpha,
        ),
        CssColor::Hwb { hue, whiteness, blackness, alpha } => resolve_channels(
            ColorModel::Hwb,
            hue,
            whiteness,
            blackness,
            alpha,
        ),
        CssColor::Lab { lightness, a, b, alpha } => resolve_channels(
            ColorModel::Lab,
            lightness,
            a,
            b,
            alpha,
        ),
        CssColor::Lch { lightness, chroma, hue, alpha } => resolve_channels(
            ColorModel::Lch,
            lightness,
            chroma,
            hue,
            alpha,
        ),
        CssColor::Oklab { lightness, a, b, alpha } => match (lightness, a, b) {
            (Some(l), Some(a), Some(b)) => {
                let ready = Color::new(l, a, b, resolve_alpha(alpha));
                Some(Conversion::Ready(ready))
            },
            _ => None,
        },
        CssColor::Oklch { lightness, chroma, hue, alpha } => resolve_channels(
            ColorModel::Oklch,
            lightness,
            chroma,
            hue,
            alpha,
        ),
        CssColor::ColorFunction { color_space, c1, c2, c3, alpha } => resolve_channels(
            ColorModel::Space(color_space),
            c1,
            c2,
            c3,
            alpha,
        ),
    }
}

} // verus!
