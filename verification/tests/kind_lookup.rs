use hms2osc::SensorKind;
use hms2osc::kinds::str_eq;
use hms2osc::type_name_to_kind;

#[test]
fn recognizes_light_level_identifier() {
    assert_eq!(
        type_name_to_kind("ZLLLightLevel"),
        Some(SensorKind::LightLevel)
    );
}

#[test]
fn recognizes_presence_identifier() {
    assert_eq!(type_name_to_kind("ZLLPresence"), Some(SensorKind::Presence));
}

#[test]
fn recognizes_temperature_identifier() {
    assert_eq!(
        type_name_to_kind("ZLLTemperature"),
        Some(SensorKind::Temperature)
    );
}

#[test]
fn rejects_unknown_identifier() {
    assert_eq!(type_name_to_kind("ZLLSwitch"), None);
    assert_eq!(type_name_to_kind(""), None);
    assert_eq!(type_name_to_kind("zlllightlevel"), None);
}

#[test]
fn string_equality_by_characters() {
    assert!(str_eq("abc", "abc"));
    assert!(str_eq("", ""));
    assert!(!str_eq("abc", "abd"));
    assert!(!str_eq("abc", "ab"));
    assert!(!str_eq("", "a"));
}
