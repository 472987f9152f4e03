use munic_simulator::models::envelope;
use munic_simulator::settings::{
    recording_on, setting_change, shutdown_enabled, simulation_mode, record,
    trip_files, Setting, SimulationMode,
};

#[test]
fn recording_switch_toggles() {
    assert_eq!(record(0), 1);
    assert_eq!(record(1), 0);
    assert_eq!(record(7), 0);
    assert!(recording_on(1));
    assert!(!recording_on(0));
    assert!(!recording_on(record(record(0))));
}

#[test]
fn settings_change_only_when_set_and_different() {
    assert_eq!(setting_change(Some("a"), "b"), Some("b".to_string()));
    assert_eq!(setting_change(Some("b"), "b"), None);
    assert_eq!(setting_change(None, "b"), None);
}

#[test]
fn settings_names() {
    assert_eq!(Setting::Dir.json_field(), "wd");
    assert_eq!(Setting::Dir.env_var(), "DIR");
    assert_eq!(Setting::Threads.json_field(), "threads");
    assert_eq!(Setting::Threads.env_var(), "THREADS_NBR");
    assert_eq!(Setting::Shutdown.env_var(), "SHUTDOWN");
    assert_eq!(Setting::Imei.json_field(), "imei");
}

#[test]
fn shutdown_only_when_true() {
    assert!(shutdown_enabled(Some("true")));
    assert!(!shutdown_enabled(Some("TRUE")));
    assert!(!shutdown_enabled(Some("false")));
    assert!(!shutdown_enabled(None));
}

#[test]
fn listing_keeps_trip_files() {
    let names = vec![
        "trip_1_2023-02-08.json".to_string(),
        "refrence.json".to_string(),
        "trip_".to_string(),
        "tri".to_string(),
    ];
    assert_eq!(
        trip_files(&names),
        vec!["trip_1_2023-02-08.json".to_string(), "trip_".to_string()]
    );
}

#[test]
fn simulation_mode_follows_the_form() {
    assert!(matches!(simulation_mode("key", "file"), SimulationMode::Live));
    assert!(matches!(simulation_mode("", "file"), SimulationMode::ReplayFile));
    assert!(matches!(simulation_mode("", ""), SimulationMode::ReplayArchive));
}

#[test]
fn envelopes_come_from_the_simulator_account() {
    let r = envelope("track", 5u8);
    assert_eq!(r.meta.account, "municio");
    assert_eq!(r.meta.event, "track");
    assert_eq!(r.payload, 5);
}
