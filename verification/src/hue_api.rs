//! The parts of the Hue API data model that the bridge logic fills in.
//!
//! Colour coordinates and percentages are held as integers in fixed units
//! (documented on each field), so that the model stays free of floating point.

use vstd::prelude::*;

verus! {

/// Product archetype of a Hue device.
#[derive(Clone, Copy, Debug, PartialEq, Eq, Structural)]
pub enum DeviceArchetype {
    UnknownArchetype,
    ClassicBulb,
    SultanBulb,
    CandleBulb,
    SpotBulb,
    VintageBulb,
    RecessedCeiling,
    PendantLong,
    HueSigne,
    HueGo,
    HueLightstrip,
    HueLightstripTv,
    HueLightstripPc,
    Plug,
}

impl Default for DeviceArchetype {
    fn default() -> (r: Self)
        ensures
            r == DeviceArchetype::UnknownArchetype,
    {
        DeviceArchetype::UnknownArchetype
    }
}

/// Manufacturer name that Signify (Philips Hue) devices report.
pub open spec fn spec_signify_manufacturer_name() -> Seq<char> {
    "Signify Netherlands B.V."@
}

/// Manufacturer name that Signify (Philips Hue) devices report.
pub fn signify_manufacturer_name() -> (r: &'static str)
    ensures
        r@ == spec_signify_manufacturer_name(),
{
    "Signify Netherlands B.V."
}

/// Product data of a device, as the Hue API reports it.
#[derive(Clone, Debug)]
pub struct DeviceProductData {
    pub model_id: String,
    pub manufacturer_name: String,
    pub product_name: String,
    pub product_archetype: DeviceArchetype,
    pub certified: bool,
    pub software_version: String,
    pub hardware_platform_type: Option<String>,
}

/// The value of a [`DeviceProductData`], with its texts as character sequences.
pub ghost struct DeviceProductDataView {
    pub model_id: Seq<char>,
    pub manufacturer_name: Seq<char>,
    pub product_name: Seq<char>,
    pub product_archetype: DeviceArchetype,
    pub certified: bool,
    pub software_version: Seq<char>,
    pub hardware_platform_type: Option<Seq<char>>,
}

impl View for DeviceProductData {
    type V = DeviceProductDataView;

    open spec fn view(&self) -> DeviceProductDataView {
        DeviceProductDataView {
            model_id: self.model_id@,
            manufacturer_name: self.manufacturer_name@,
            product_name: self.product_name@,
            product_archetype: self.product_archetype,
            certified: self.certified,
            software_version: self.software_version@,
            hardware_platform_type: match self.hardware_platform_type {
                Some(h) => Some(h@),
                None => None,
            },
        }
    }
}

/// Supported range of colour temperature, in mirek.
#[derive(Clone, Copy, Debug, PartialEq, Eq, Structural)]
pub struct MirekSchema {
    pub mirek_minimum: u32,
    pub mirek_maximum: u32,
}

impl MirekSchema {
    /// The range assumed when a device does not report one.
    pub open spec fn spec_default() -> MirekSchema {
        MirekSchema { mirek_minimum: 153, mirek_maximum: 500 }
    }

    /// The range assumed when a device does not report one.
    pub fn default_schema() -> (r: MirekSchema)
        ensures
            r == Self::spec_default(),
    {
        MirekSchema { mirek_minimum: 153, mirek_maximum: 500 }
    }
}

/// Colour temperature capability and state of a light.
#[derive(Clone, Copy, Debug, PartialEq, Eq, Structural)]
pub struct ColorTemperature {
    pub mirek: Option<u32>,
    pub mirek_schema: MirekSchema,
    pub mirek_valid: bool,
}

/// Dimming capability and state of a light.
///
/// Both fields are percentages in hundredths of a percent (so `1` is 0.01 %).
#[derive(Clone, Copy, Debug, PartialEq, Eq, Structural)]
pub struct Dimming {
    pub brightness: u32,
    pub min_dim_level: Option<u32>,
}

/// A CIE 1931 chromaticity coordinate, each component in units of 1/100000.
#[derive(Clone, Copy, Debug, PartialEq, Eq, Structural)]
pub struct XY {
    pub x: u32,
    pub y: u32,
}

impl XY {
    /// The D65 white point (x 0.31271, y 0.32902).
    pub open spec fn spec_d65_white_point() -> XY {
        XY { x: 31271, y: 32902 }
    }

    /// The D65 white point (x 0.31271, y 0.32902).
    pub fn d65_white_point() -> (r: XY)
        ensures
            r == Self::spec_d65_white_point(),
    {
        XY { x: 31271, y: 32902 }
    }
}

/// The triangle of colours a light can reproduce.
#[derive(Clone, Copy, Debug, PartialEq, Eq, Structural)]
pub struct ColorGamut {
    pub red: XY,
    pub green: XY,
    pub blue: XY,
}

impl ColorGamut {
    /// Hue gamut C: red (0.6915, 0.3083), green (0.17, 0.7), blue (0.1532, 0.0475).
    pub open spec fn spec_gamut_c() -> ColorGamut {
        ColorGamut {
            red: XY { x: 69150, y: 30830 },
            green: XY { x: 17000, y: 70000 },
            blue: XY { x: 15320, y: 4750 },
        }
    }

    /// Hue gamut C: red (0.6915, 0.3083), green (0.17, 0.7), blue (0.1532, 0.0475).
    pub fn gamut_c() -> (r: ColorGamut)
        ensures
            r == Self::spec_gamut_c(),
    {
        ColorGamut {
            red: XY { x: 69150, y: 30830 },
            green: XY { x: 17000, y: 70000 },
            blue: XY { x: 15320, y: 4750 },
        }
    }
}

/// The named Hue gamuts.
#[derive(Clone, Copy, Debug, PartialEq, Eq, Structural)]
pub enum GamutType {
    A,
    B,
    C,
    Other,
}

/// Colour capability and state of a light.
#[derive(Clone, Copy, Debug, PartialEq, Eq, Structural)]
pub struct LightColor {
    pub gamut: Option<ColorGamut>,
    pub gamut_type: GamutType,
    pub xy: XY,
}

/// How a gradient light spreads its colour points.
#[derive(Clone, Copy, Debug, PartialEq, Eq, Structural)]
pub enum LightGradientMode {
    InterpolatedPalette,
    InterpolatedPaletteMirrored,
    RandomPixelated,
}

/// One colour point of a gradient.
#[derive(Clone, Copy, Debug, PartialEq, Eq, Structural)]
pub struct LightGradientPoint {
    pub color: XY,
}

/// Gradient capability and state of a light.
///
/// `mode_values` lists each supported mode once, in the order the modes are declared.
#[derive(Clone, Debug)]
pub struct LightGradient {
    pub mode: LightGradientMode,
    pub mode_values: Vec<LightGradientMode>,
    pub points_capable: u32,
    pub points: Vec<LightGradientPoint>,
    pub pixel_count: u32,
}

/// The value of a [`LightGradient`].
pub ghost struct LightGradientView {
    pub mode: LightGradientMode,
    pub mode_values: Seq<LightGradientMode>,
    pub points_capable: u32,
    pub points: Seq<LightGradientPoint>,
    pub pixel_count: u32,
}

impl View for LightGradient {
    type V = LightGradientView;

    open spec fn view(&self) -> LightGradientView {
        LightGradientView {
            mode: self.mode,
            mode_values: self.mode_values@,
            points_capable: self.points_capable,
            points: self.points@,
            pixel_count: self.pixel_count,
        }
    }
}

} // verus!
