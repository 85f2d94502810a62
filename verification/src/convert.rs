//! Conversion of zigbee2mqtt device descriptions into Hue API capabilities.

use vstd::prelude::*;

use crate::devicedb::{hardware_platform_type, product_archetype, spec_product_data};
use crate::hue_api::{
    signify_manufacturer_name, spec_signify_manufacturer_name, ColorGamut, ColorTemperature,
    DeviceArchetype, DeviceProductData, Dimming, GamutType, LightColor, LightGradient,
    LightGradientMode, LightGradientPoint, LightGradientView, MirekSchema, XY, DeviceProductDataView,
};
use crate::text::{opt_chars, str_eq};
use crate::z2m_api::{Device, Expose, ExposeList, ExposeNumeric};

verus! {

broadcast use vstd::string::group_string_axioms;

/// Reading a colour temperature range from a numeric feature.
pub trait ExtractExposeNumeric {
    fn extract_mirek_schema(&self) -> Option<MirekSchema>;
}

/// The mirek range a numeric feature describes: present when its unit is
/// "mired" and both bounds are given.
pub open spec fn spec_mirek_schema(num: ExposeNumeric) -> Option<MirekSchema> {
    if num.unit matches Some(u) && u@ == "mired"@ {
        match (num.value_min, num.value_max) {
            (Some(min), Some(max)) => Some(MirekSchema { mirek_minimum: min, mirek_maximum: max }),
            _ => None,
        }
    } else {
        None
    }
}

impl ExtractExposeNumeric for ExposeNumeric {
    fn extract_mirek_schema(&self) -> (r: Option<MirekSchema>)
        ensures
            r == spec_mirek_schema(*self),
    {
        let is_mired = match &self.unit {
            Some(u) => str_eq(u.as_str(), "mired"),
            None => false,
        };
        if is_mired {
            if let (Some(min), Some(max)) = (self.value_min, self.value_max) {
                return Some(MirekSchema { mirek_minimum: min, mirek_maximum: max });
            }
        }
        None
    }
}

/// Reading a colour capability from a feature.
pub trait ExtractLightColor {
    fn extract_from_expose(expose: &Expose) -> Option<Self> where Self: Sized;
}

/// The colour capability of a colour (composite) feature: gamut C, starting at the D65 white point.
pub open spec fn spec_light_color(expose: Expose) -> Option<LightColor> {
    if expose is Composite {
        Some(
            LightColor {
                gamut: Some(ColorGamut::spec_gamut_c()),
                gamut_type: GamutType::C,
                xy: XY::spec_d65_white_point(),
            },
        )
    } else {
        None
    }
}

impl ExtractLightColor for LightColor {
    fn extract_from_expose(expose: &Expose) -> (r: Option<Self>)
        ensures
            r == spec_light_color(*expose),
    {
        let Expose::Composite(_) = expose else {
            return None;
        };
        Some(
            LightColor {
                gamut: Some(ColorGamut::gamut_c()),
                gamut_type: GamutType::C,
                xy: XY::d65_white_point(),
            },
        )
    }
}

/// Reading a gradient capability from a list feature.
pub trait ExtractLightGradient {
    fn extract_from_expose(expose: &ExposeList) -> Option<Self> where Self: Sized;
}

/// The gradient modes a gradient light supports, in declaration order.
pub open spec fn gradient_modes() -> Seq<LightGradientMode> {
    seq![
        LightGradientMode::InterpolatedPalette,
        LightGradientMode::InterpolatedPaletteMirrored,
        LightGradientMode::RandomPixelated,
    ]
}

/// The smaller of two numbers.
pub open spec fn min_u32(a: u32, b: u32) -> u32 {
    if a <= b {
        a
    } else {
        b
    }
}

/// The gradient capability of a list feature with a maximum length: up to 5
/// points and 7 pixels, no points set, interpolated palette mode.
pub open spec fn spec_light_gradient(expose: ExposeList) -> Option<LightGradientView> {
    match expose.length_max {
        Some(max) => Some(
            LightGradientView {
                mode: LightGradientMode::InterpolatedPalette,
                mode_values: gradient_modes(),
                points_capable: min_u32(max, 5),
                points: Seq::empty(),
                pixel_count: min_u32(max, 7),
            },
        ),
        None => None,
    }
}

impl ExtractLightGradient for LightGradient {
    fn extract_from_expose(expose: &ExposeList) -> (r: Option<Self>)
        ensures
            match r {
                Some(g) => spec_light_gradient(*expose) == Some(g@),
                None => spec_light_gradient(*expose) is None,
            },
    {
        match expose.length_max {
            Some(max) => {
                let mut mode_values = Vec::new();
                mode_values.push(LightGradientMode::InterpolatedPalette);
                mode_values.push(LightGradientMode::InterpolatedPaletteMirrored);
                mode_values.push(LightGradientMode::RandomPixelated);
                assert(mode_values@ =~= gradient_modes());
                let g = LightGradient {
                    mode: LightGradientMode::InterpolatedPalette,
                    mode_values,
                    points_capable: if max <= 5 { max } else { 5 },
                    points: Vec::new(),
                    pixel_count: if max <= 7 { max } else { 7 },
                };
                assert(g.points@ =~= Seq::<LightGradientPoint>::empty());
                Some(g)
            },
            None => None,
        }
    }
}

/// Reading a colour temperature capability from a feature.
pub trait ExtractColorTemperature: Sized {
    fn extract_from_expose(expose: &Expose) -> Option<Self>;
}

/// The colour temperature capability of a numeric feature: its mirek range
/// when it gives one (then marked valid), else the default range (marked not valid).
pub open spec fn spec_color_temperature(expose: Expose) -> Option<ColorTemperature> {
    match expose {
        Expose::Numeric(num) => Some(
            ColorTemperature {
                mirek: None,
                mirek_schema: match spec_mirek_schema(num) {
                    Some(s) => s,
                    None => MirekSchema::spec_default(),
                },
                mirek_valid: spec_mirek_schema(num) is Some,
            },
        ),
        _ => None,
    }
}

impl ExtractColorTemperature for ColorTemperature {
    fn extract_from_expose(expose: &Expose) -> (r: Option<Self>)
        ensures
            r == spec_color_temperature(*expose),
    {
        let Expose::Numeric(num) = expose else {
            return None;
        };
        let schema_opt = num.extract_mirek_schema();
        let mirek_valid = schema_opt.is_some();
        let mirek_schema = match schema_opt {
            Some(s) => s,
            None => MirekSchema::default_schema(),
        };
        Some(ColorTemperature { mirek: None, mirek_schema, mirek_valid })
    }
}

/// Reading a dimming capability from a feature.
pub trait ExtractDimming: Sized {
    fn extract_from_expose(expose: &Expose) -> Option<Self>;
}

/// The dimming capability of a numeric feature: brightness and minimum level both 0.01 %.
pub open spec fn spec_dimming(expose: Expose) -> Option<Dimming> {
    if expose is Numeric {
        Some(Dimming { brightness: 1, min_dim_level: Some(1) })
    } else {
        None
    }
}

impl ExtractDimming for Dimming {
    fn extract_from_expose(expose: &Expose) -> (r: Option<Self>)
        ensures
            r == spec_dimming(*expose),
    {
        let Expose::Numeric(_) = expose else {
            return None;
        };
        Some(Dimming { brightness: 1, min_dim_level: Some(1) })
    }
}

/// Guessing the Hue product data of a zigbee2mqtt device.
pub trait ExtractDeviceProductData: Sized {
    fn guess_from_device(dev: &Device) -> Self;
}

/// The text shown for a value the device does not report.
pub open spec fn unknown_text() -> Seq<char> {
    "<unknown>"@
}

/// A reported text, or the placeholder for an unreported one.
pub open spec fn or_unknown(name: Option<Seq<char>>) -> Seq<char> {
    match name {
        Some(n) => n,
        None => unknown_text(),
    }
}

/// A copy of `name`, or the placeholder text when there is none.
fn str_or_unknown(name: Option<&String>) -> (r: String)
    ensures
        r@ == or_unknown(
            match name {
                Some(n) => Some(n@),
                None => None,
            },
        ),
{
    match name {
        Some(v) => v.clone(),
        None => "<unknown>".to_string(),
    }
}

/// The product name zigbee2mqtt reports for a device: the model of its definition.
pub open spec fn device_product_name(dev: &Device) -> Option<Seq<char>> {
    match dev.definition {
        Some(def) => Some(def.model@),
        None => None,
    }
}

/// The product data guessed for a device: its reported names (or the
/// placeholder), certified when made by Signify, and the archetype and hardware
/// platform type the product database gives for its model id.
pub open spec fn spec_guess_product_data(dev: &Device) -> DeviceProductDataView {
    let model_id = or_unknown(opt_chars(dev.model_id));
    let manufacturer_name = or_unknown(opt_chars(dev.manufacturer));
    DeviceProductDataView {
        model_id,
        manufacturer_name,
        product_name: or_unknown(device_product_name(dev)),
        product_archetype: match spec_product_data(model_id) {
            Some(d) => d.product_archetype,
            None => DeviceArchetype::UnknownArchetype,
        },
        certified: manufacturer_name == spec_signify_manufacturer_name(),
        software_version: or_unknown(opt_chars(dev.software_build_id)),
        hardware_platform_type: match spec_product_data(model_id) {
            Some(d) => d.hardware_platform_type,
            None => None,
        },
    }
}

impl ExtractDeviceProductData for DeviceProductData {
    fn guess_from_device(dev: &Device) -> (r: Self)
        ensures
            r@ == spec_guess_product_data(dev),
    {
        let product_name = str_or_unknown(
            match &dev.definition {
                Some(def) => Some(&def.model),
                None => None,
            },
        );
        let model_id = str_or_unknown(dev.model_id.as_ref());
        let manufacturer_name = str_or_unknown(dev.manufacturer.as_ref());
        let certified = str_eq(manufacturer_name.as_str(), signify_manufacturer_name());
        let software_version = str_or_unknown(dev.software_build_id.as_ref());

        let product_archetype = match product_archetype(model_id.as_str()) {
            Some(a) => a,
            None => DeviceArchetype::default(),
        };
        let hardware_platform_type = match hardware_platform_type(model_id.as_str()) {
            Some(h) => Some(h.to_string()),
            None => None,
        };

        DeviceProductData {
            model_id,
            manufacturer_name,
            product_name,
            product_archetype,
            certified,
            software_version,
            hardware_platform_type,
        }
    }
}

} // verus!
