use bifrost::devicedb::{hardware_platform_type, make_product_data, product_archetype, product_data, SimpleProductData};
use bifrost::hue_api::{signify_manufacturer_name, DeviceArchetype};

#[test]
fn lookup_spf() {
    assert!(product_data("LCX001").is_some());
}

#[test]
fn lookup_archetype() {
    assert_eq!(
        product_archetype("LCX001").unwrap(),
        DeviceArchetype::HueLightstripTv
    );
}

#[test]
fn lookup_platform_type() {
    assert_eq!(hardware_platform_type("LCX001").unwrap(), "100b-118",);
}

#[test]
fn lookup_unknown_model() {
    assert!(product_data("NOPE01").is_none());
    assert!(product_archetype("NOPE01").is_none());
    assert!(hardware_platform_type("NOPE01").is_none());
    assert!(product_data("").is_none());
    // a prefix of a known model id is not a match
    assert!(product_data("LCX00").is_none());
    assert!(product_data("LCX0011").is_none());
}

#[test]
fn lookup_signify_entry_fields() {
    let pd = product_data("LOM001").unwrap();
    assert_eq!(pd.manufacturer_name, "Signify Netherlands B.V.");
    assert_eq!(pd.product_name, "Hue Smart plug");
    assert_eq!(pd.product_archetype, DeviceArchetype::Plug);
    assert_eq!(pd.hardware_platform_type, Some("100b-115"));
}

#[test]
fn lookup_other_manufacturers() {
    let lutron = product_data("Z3-1BRL").unwrap();
    assert_eq!(lutron.manufacturer_name, "Lutron");
    assert_eq!(lutron.product_name, "Lutron Aurora");
    assert_eq!(lutron.product_archetype, DeviceArchetype::UnknownArchetype);
    assert_eq!(hardware_platform_type("Z3-1BRL"), Some("1144-0"));

    let plug = product_data("3RSP02028BZ").unwrap();
    assert_eq!(plug.manufacturer_name, "Third Reality, Inc");
    assert_eq!(plug.product_archetype, DeviceArchetype::Plug);
    assert_eq!(plug.hardware_platform_type, None);
    assert_eq!(hardware_platform_type("3RSP02028BZ"), None);
    assert_eq!(product_archetype("3RSP02028BZ"), Some(DeviceArchetype::Plug));
}

#[test]
fn lookup_first_and_last_entries() {
    assert_eq!(product_archetype("915005987201"), Some(DeviceArchetype::HueSigne));
    assert_eq!(hardware_platform_type("929003053301_02"), Some("100b-11f"));
    assert_eq!(product_data("929003053301_02").unwrap().product_name, "Hue Ensis down");
    assert_eq!(hardware_platform_type("SML003"), Some("100b-11b"));
}

#[test]
fn product_table_has_distinct_model_ids() {
    let table = make_product_data();
    assert_eq!(table.len(), 28);
    for i in 0..table.len() {
        for j in 0..table.len() {
            if i != j {
                assert_ne!(table[i].0, table[j].0);
            }
        }
        // every entry is found by its own model id
        let found = product_data(table[i].0).unwrap();
        assert_eq!(found.product_name, table[i].1.product_name);
        assert_eq!(found.hardware_platform_type, table[i].1.hardware_platform_type);
    }
}

#[test]
fn signify_helper() {
    let spd = SimpleProductData::signify("Hue go", DeviceArchetype::HueGo, "100b-108");
    assert_eq!(spd.manufacturer_name, signify_manufacturer_name());
    assert_eq!(spd.manufacturer_name, "Signify Netherlands B.V.");
    assert_eq!(spd.product_name, "Hue go");
    assert_eq!(spd.product_archetype, DeviceArchetype::HueGo);
    assert_eq!(spd.hardware_platform_type, Some("100b-108"));
}

#[test]
fn default_archetype_is_unknown() {
    assert_eq!(DeviceArchetype::default(), DeviceArchetype::UnknownArchetype);
}

#[test]
fn product_table_in_model_id_order() {
    let keys: Vec<&str> = make_product_data().iter().map(|e| e.0).collect();
    assert_eq!(
        keys,
        vec![
            "3RSP02028BZ", "915005987201", "929003053301_01", "929003053301_02", "LCA001",
            "LCD007", "LCE002", "LCG002", "LCT014", "LCT015", "LCT016", "LCX001", "LCX005",
            "LLC020", "LOM001", "LST002", "LTO001", "LTW015", "LWA003", "LWA029", "LWB014",
            "RDM002", "RWL021", "RWL022", "SML001", "SML002", "SML003", "Z3-1BRL",
        ]
    );
    let mut sorted = keys.clone();
    sorted.sort();
    assert_eq!(keys, sorted);
}
