use bifrost::text::{str_eq, string_eq, strip_prefix, u32_to_string};

#[test]
fn string_equality() {
    assert!(str_eq("abc", "abc"));
    assert!(!str_eq("abc", "abd"));
    assert!(!str_eq("abc", "ab"));
    assert!(str_eq("", ""));
    assert!(str_eq("grüße", "grüße"));
    assert!(!str_eq("grüße", "grusse"));
    assert!(string_eq(&"x".to_string(), &"x".to_string()));
}

#[test]
fn prefix_stripping() {
    assert_eq!(strip_prefix("hue_kitchen", "hue_"), Some("kitchen"));
    assert_eq!(strip_prefix("hue_", "hue_"), Some(""));
    assert_eq!(strip_prefix("kitchen", "hue_"), None);
    assert_eq!(strip_prefix("hu", "hue_"), None);
    assert_eq!(strip_prefix("anything", ""), Some("anything"));
    assert_eq!(strip_prefix("ünï_room", "ünï_"), Some("room"));
}

#[test]
fn decimal_rendering() {
    assert_eq!(u32_to_string(0), "0");
    assert_eq!(u32_to_string(7), "7");
    assert_eq!(u32_to_string(10), "10");
    assert_eq!(u32_to_string(1234), "1234");
    assert_eq!(u32_to_string(u32::MAX), u32::MAX.to_string());
}
