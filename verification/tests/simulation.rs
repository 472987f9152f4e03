use munic_simulator::custom_fields::{field_key, field_plan, FieldPlan};
use munic_simulator::simulation::{events_of_kind, is_event_of_kind, simulated_asset, step_seconds};

#[test]
fn reference_events_are_picked_by_kind() {
    let events = vec![
        Some("presence".to_string()),
        Some("track".to_string()),
        None,
        Some("track".to_string()),
    ];
    assert_eq!(events_of_kind(&events, "track"), vec![1, 3]);
    assert_eq!(events_of_kind(&events, "presence"), vec![0]);
    assert!(is_event_of_kind(Some("track"), "track"));
    assert!(!is_event_of_kind(None, "track"));
}

#[test]
fn configured_imei_replaces_the_asset() {
    assert_eq!(
        simulated_asset(Some("3510".to_string()), Some("ref".to_string())),
        Some("3510".to_string())
    );
    assert_eq!(simulated_asset(None, Some("ref".to_string())), Some("ref".to_string()));
}

#[test]
fn step_duration_in_seconds() {
    // a step of 1 h 2 min 3 s, as its whole parts give it
    assert_eq!(step_seconds(62, 3723, 1), 62 * 60 + 3723 + 360);
    assert_eq!(step_seconds(0, 0, 0), 0);
}

#[test]
fn custom_field_plans() {
    assert!(matches!(field_plan(None, 5), FieldPlan::NoPeriod));
    assert!(matches!(field_plan(Some("1s"), 1_000_000_000), FieldPlan::Update));
    assert!(matches!(field_plan(Some("1s"), 999), FieldPlan::Wait));
    assert!(matches!(field_plan(Some("often"), 999), FieldPlan::BadPeriod));
}

#[test]
fn custom_field_keys_are_upper_case() {
    assert_eq!(field_key("gps_fix"), "GPS_FIX");
    assert_eq!(field_key("Mdi_ext"), "MDI_EXT");
}
