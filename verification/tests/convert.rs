use bifrost::convert::{
    ExtractColorTemperature, ExtractDeviceProductData, ExtractDimming, ExtractExposeNumeric,
    ExtractLightColor, ExtractLightGradient,
};
use bifrost::hue_api::{
    ColorGamut, ColorTemperature, DeviceArchetype, DeviceProductData, Dimming, GamutType,
    LightColor, LightGradient, LightGradientMode, MirekSchema, XY,
};
use bifrost::z2m_api::{
    passes_color_xy, Definition, Device, DeviceColorMode, Expose, ExposeBinary, ExposeComposite,
    ExposeList, ExposeNumeric,
};

fn numeric(unit: Option<&str>, min: Option<u32>, max: Option<u32>) -> ExposeNumeric {
    ExposeNumeric {
        name: Some("color_temp".to_string()),
        unit: unit.map(|u| u.to_string()),
        value_min: min,
        value_max: max,
    }
}

fn list(max: Option<u32>) -> ExposeList {
    ExposeList { name: Some("gradient".to_string()), length_min: None, length_max: max }
}

#[test]
fn mirek_schema_from_mired_bounds() {
    let n = numeric(Some("mired"), Some(150), Some(500));
    assert_eq!(
        n.extract_mirek_schema(),
        Some(MirekSchema { mirek_minimum: 150, mirek_maximum: 500 })
    );
}

#[test]
fn mirek_schema_needs_unit_and_both_bounds() {
    assert_eq!(numeric(Some("kelvin"), Some(150), Some(500)).extract_mirek_schema(), None);
    assert_eq!(numeric(None, Some(150), Some(500)).extract_mirek_schema(), None);
    assert_eq!(numeric(Some("mired"), None, Some(500)).extract_mirek_schema(), None);
    assert_eq!(numeric(Some("mired"), Some(150), None).extract_mirek_schema(), None);
}

#[test]
fn color_temperature_from_numeric() {
    let e = Expose::Numeric(numeric(Some("mired"), Some(153), Some(454)));
    let ct = <ColorTemperature as ExtractColorTemperature>::extract_from_expose(&e).unwrap();
    assert_eq!(ct.mirek, None);
    assert!(ct.mirek_valid);
    assert_eq!(ct.mirek_schema, MirekSchema { mirek_minimum: 153, mirek_maximum: 454 });
}

#[test]
fn color_temperature_default_schema_when_unreported() {
    let e = Expose::Numeric(numeric(None, None, None));
    let ct = <ColorTemperature as ExtractColorTemperature>::extract_from_expose(&e).unwrap();
    assert!(!ct.mirek_valid);
    assert_eq!(ct.mirek_schema, MirekSchema { mirek_minimum: 153, mirek_maximum: 500 });
    assert_eq!(MirekSchema::default_schema(), ct.mirek_schema);
}

#[test]
fn color_temperature_needs_numeric() {
    let e = Expose::Binary(ExposeBinary { name: Some("state".to_string()) });
    assert!(<ColorTemperature as ExtractColorTemperature>::extract_from_expose(&e).is_none());
}

#[test]
fn dimming_from_numeric_only() {
    let e = Expose::Numeric(numeric(None, Some(0), Some(254)));
    let d = <Dimming as ExtractDimming>::extract_from_expose(&e).unwrap();
    assert_eq!(d, Dimming { brightness: 1, min_dim_level: Some(1) });
    let c = Expose::Composite(ExposeComposite { name: None, features: vec![] });
    assert!(<Dimming as ExtractDimming>::extract_from_expose(&c).is_none());
}

#[test]
fn light_color_from_composite_only() {
    let c = Expose::Composite(ExposeComposite { name: Some("color_xy".to_string()), features: vec![] });
    let col = <LightColor as ExtractLightColor>::extract_from_expose(&c).unwrap();
    assert_eq!(col.gamut, Some(ColorGamut::gamut_c()));
    assert_eq!(col.gamut_type, GamutType::C);
    assert_eq!(col.xy, XY::d65_white_point());
    assert_eq!(col.xy, XY { x: 31271, y: 32902 });
    assert_eq!(ColorGamut::gamut_c().red, XY { x: 69150, y: 30830 });
    let n = Expose::Numeric(numeric(None, None, None));
    assert!(<LightColor as ExtractLightColor>::extract_from_expose(&n).is_none());
}

#[test]
fn gradient_from_list() {
    let g = <LightGradient as ExtractLightGradient>::extract_from_expose(&list(Some(9))).unwrap();
    assert_eq!(g.mode, LightGradientMode::InterpolatedPalette);
    assert_eq!(
        g.mode_values,
        vec![
            LightGradientMode::InterpolatedPalette,
            LightGradientMode::InterpolatedPaletteMirrored,
            LightGradientMode::RandomPixelated,
        ]
    );
    assert_eq!(g.points_capable, 5);
    assert_eq!(g.pixel_count, 7);
    assert!(g.points.is_empty());
}

#[test]
fn gradient_small_list() {
    let g = <LightGradient as ExtractLightGradient>::extract_from_expose(&list(Some(3))).unwrap();
    assert_eq!(g.points_capable, 3);
    assert_eq!(g.pixel_count, 3);
    let g = <LightGradient as ExtractLightGradient>::extract_from_expose(&list(Some(6))).unwrap();
    assert_eq!(g.points_capable, 5);
    assert_eq!(g.pixel_count, 6);
    assert!(g.points_capable <= g.pixel_count);
}

#[test]
fn gradient_needs_max_length() {
    assert!(<LightGradient as ExtractLightGradient>::extract_from_expose(&list(None)).is_none());
}

fn device(manufacturer: Option<&str>, model_id: Option<&str>, model: Option<&str>) -> Device {
    Device {
        friendly_name: "lamp".to_string(),
        ieee_address: "0x0017880100000001".to_string(),
        manufacturer: manufacturer.map(|s| s.to_string()),
        model_id: model_id.map(|s| s.to_string()),
        software_build_id: Some("1.2.3".to_string()),
        definition: model.map(|m| Definition { model: m.to_string(), vendor: "Philips".to_string() }),
        exposes: vec![],
    }
}

#[test]
fn guess_known_signify_device() {
    let dev = device(Some("Signify Netherlands B.V."), Some("LCX001"), Some("915005988201"));
    let pd = DeviceProductData::guess_from_device(&dev);
    assert_eq!(pd.model_id, "LCX001");
    assert_eq!(pd.manufacturer_name, "Signify Netherlands B.V.");
    assert_eq!(pd.product_name, "915005988201");
    assert_eq!(pd.product_archetype, DeviceArchetype::HueLightstripTv);
    assert!(pd.certified);
    assert_eq!(pd.software_version, "1.2.3");
    assert_eq!(pd.hardware_platform_type, Some("100b-118".to_string()));
}

#[test]
fn guess_unknown_device() {
    let mut dev = device(None, None, None);
    dev.software_build_id = None;
    let pd = DeviceProductData::guess_from_device(&dev);
    assert_eq!(pd.model_id, "<unknown>");
    assert_eq!(pd.manufacturer_name, "<unknown>");
    assert_eq!(pd.product_name, "<unknown>");
    assert_eq!(pd.software_version, "<unknown>");
    assert_eq!(pd.product_archetype, DeviceArchetype::UnknownArchetype);
    assert!(!pd.certified);
    assert_eq!(pd.hardware_platform_type, None);
}

#[test]
fn guess_other_manufacturer_not_certified() {
    let dev = device(Some("IKEA of Sweden"), Some("LOM001"), None);
    let pd = DeviceProductData::guess_from_device(&dev);
    assert!(!pd.certified);
    assert_eq!(pd.product_archetype, DeviceArchetype::Plug);
    assert_eq!(pd.hardware_platform_type, Some("100b-115".to_string()));
}

#[test]
fn color_xy_passed_except_in_color_temp_mode() {
    assert!(!passes_color_xy(Some(DeviceColorMode::ColorTemp)));
    assert!(passes_color_xy(Some(DeviceColorMode::Xy)));
    assert!(passes_color_xy(Some(DeviceColorMode::Hs)));
    assert!(passes_color_xy(None));
}
