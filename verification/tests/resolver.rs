use hms2osc::BridgeSensor;
use hms2osc::ResolveError;
use hms2osc::SensorConfig;
use hms2osc::SensorKind;
use hms2osc::prepare_sensor_transformers;

fn sensor(id: &str, name: &str, raw_type: &str) -> BridgeSensor {
    BridgeSensor {
        id: String::from(id),
        name: String::from(name),
        raw_type: String::from(raw_type),
    }
}

fn config(name: &str, enabled: bool, osc_address: &str) -> SensorConfig {
    SensorConfig {
        name: String::from(name),
        enabled,
        osc_address: String::from(osc_address),
        send_changes_only: false,
    }
}

#[test]
fn resolves_one_presence_sensor() {
    let sensors = vec![sensor("1", "A", "ZLLPresence")];
    let configs = vec![config("A", true, "/a")];
    let out = prepare_sensor_transformers(&sensors, &configs).unwrap();
    assert_eq!(out.len(), 1);
    assert_eq!(out[0].id, "1");
    assert_eq!(out[0].kind, SensorKind::Presence);
    assert_eq!(out[0].sensor_config.osc_address, "/a");
    assert!(out[0].osc_args.is_empty());
    assert!(out[0].last_osc_args.is_empty());
}

#[test]
fn unmatched_name_fails() {
    let sensors = vec![sensor("1", "A", "ZLLPresence")];
    let configs = vec![config("B", true, "/b")];
    let r = prepare_sensor_transformers(&sensors, &configs);
    assert_eq!(
        r,
        Err(ResolveError::SensorNotFound {
            name: String::from("B")
        })
    );
}

#[test]
fn ambiguous_name_fails() {
    let sensors = vec![
        sensor("1", "A", "ZLLPresence"),
        sensor("2", "A", "ZLLTemperature"),
    ];
    let configs = vec![config("A", true, "/a")];
    let r = prepare_sensor_transformers(&sensors, &configs);
    assert_eq!(
        r,
        Err(ResolveError::AmbiguousSensorName {
            name: String::from("A")
        })
    );
}

#[test]
fn unrecognized_type_identifier_fails_naming_it() {
    let sensors = vec![sensor("1", "A", "ZLLSwitch")];
    let configs = vec![config("A", true, "/a")];
    let r = prepare_sensor_transformers(&sensors, &configs);
    assert_eq!(
        r,
        Err(ResolveError::UnrecognizedSensorType {
            raw_type: String::from("ZLLSwitch")
        })
    );
}

#[test]
fn disabled_entries_are_dropped_before_matching() {
    // The disabled entry produces no transformer, and its problems (here:
    // no matching sensor) are never looked at.
    let sensors = vec![
        sensor("1", "A", "ZLLPresence"),
        sensor("2", "C", "ZLLTemperature"),
    ];
    let configs = vec![
        config("B", false, "/b"),
        config("A", true, "/a"),
        config("C", false, "/c"),
    ];
    let out = prepare_sensor_transformers(&sensors, &configs).unwrap();
    assert_eq!(out.len(), 1);
    assert_eq!(out[0].id, "1");
}

#[test]
fn output_follows_config_order() {
    let sensors = vec![
        sensor("10", "ceiling", "ZLLLightLevel"),
        sensor("11", "hall", "ZLLPresence"),
        sensor("12", "attic", "ZLLTemperature"),
    ];
    let configs = vec![
        config("attic", true, "/attic"),
        config("ceiling", true, "/ceiling"),
        config("hall", true, "/hall"),
    ];
    let out = prepare_sensor_transformers(&sensors, &configs).unwrap();
    assert_eq!(out.len(), 3);
    assert_eq!(out[0].id, "12");
    assert_eq!(out[0].kind, SensorKind::Temperature);
    assert_eq!(out[1].id, "10");
    assert_eq!(out[1].kind, SensorKind::LightLevel);
    assert_eq!(out[2].id, "11");
    assert_eq!(out[2].kind, SensorKind::Presence);
}

#[test]
fn first_failing_enabled_entry_determines_the_error() {
    let sensors = vec![sensor("1", "A", "ZLLPresence")];
    let configs = vec![
        config("A", true, "/a"),
        config("B", true, "/b"),
        config("C", true, "/c"),
    ];
    let r = prepare_sensor_transformers(&sensors, &configs);
    assert_eq!(
        r,
        Err(ResolveError::SensorNotFound {
            name: String::from("B")
        })
    );
}

#[test]
fn empty_config_resolves_to_nothing() {
    let sensors = vec![sensor("1", "A", "ZLLPresence")];
    let configs: Vec<SensorConfig> = vec![];
    let out = prepare_sensor_transformers(&sensors, &configs).unwrap();
    assert!(out.is_empty());
}

#[test]
fn config_defaults_match_the_documented_values() {
    assert!(SensorConfig::enabled_default());
    assert!(!SensorConfig::send_changes_only_default());
}
