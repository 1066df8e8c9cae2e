use config_editor::config::{ButtonColor, ButtonConfig, ButtonMode, DeviceType, MidiCaptainConfig, OffMode};
use config_editor::device::{
    check_labeled_volume, check_volume, classify_entries, device_volumes, get_volume_name,
};
use config_editor::paths::{
    authorize_canonical, get_path_volume_name, get_volume_path, validate_device_path,
};
use config_editor::watcher::{
    reconcile, watch_event_actions, WatchEventKind, WatchNotification, WatcherRegistry,
};
use config_editor::writer::{is_volume_mounted, verify_device_connected, write_gate};

#[test]
fn test_check_volume_circuitpy() {
    let path = "/Volumes/CIRCUITPY";
    let result = check_volume(path);
    assert!(result.is_some());
    let device = result.unwrap();
    assert_eq!(device.name, "CIRCUITPY");
    assert!(!device.has_config);
}

#[test]
fn test_check_volume_midicaptain() {
    let path = "/Volumes/MIDICAPTAIN";
    let result = check_volume(path);
    assert!(result.is_some());
    let device = result.unwrap();
    assert_eq!(device.name, "MIDICAPTAIN");
    assert!(!device.has_config);
}

#[test]
fn test_check_volume_case_insensitive() {
    let path = "/Volumes/circuitpy";
    let result = check_volume(path);
    assert!(result.is_some());
    let device = result.unwrap();
    assert_eq!(device.name, "circuitpy");
}

#[test]
fn test_check_volume_invalid() {
    let path = "/Volumes/SomeOtherDrive";
    let result = check_volume(path);
    assert!(result.is_none());
}

#[test]
fn test_device_volumes_list() {
    let volumes = device_volumes();
    assert!(volumes.iter().any(|v| v.as_str() == "CIRCUITPY"));
    assert!(volumes.iter().any(|v| v.as_str() == "MIDICAPTAIN"));
    assert!(!volumes.iter().any(|v| v.as_str() == "Macintosh HD"));
}

#[test]
fn test_check_volume_config_path() {
    let device = check_volume("/Volumes/CIRCUITPY").unwrap();
    assert_eq!(device.path, "/Volumes/CIRCUITPY");
    assert_eq!(device.config_path, "/Volumes/CIRCUITPY/config.json");
}

#[test]
fn test_get_volume_name_last_component() {
    assert_eq!(get_volume_name("/Volumes/FOO").unwrap(), "FOO");
    assert!(get_volume_name("/Volumes/FOO/").is_none());
    assert!(get_volume_name("/Volumes/..").is_none());
}

#[test]
fn test_volume_name_for_nested_path() {
    assert_eq!(get_path_volume_name("/Volumes/CIRCUITPY/config.json").unwrap(), "CIRCUITPY");
    assert_eq!(get_path_volume_name("/media/alice/MIDICAPTAIN/config.json").unwrap(), "MIDICAPTAIN");
    assert_eq!(get_path_volume_name("/run/media/alice/CIRCUITPY/x").unwrap(), "CIRCUITPY");
    assert!(get_path_volume_name("/home/alice/config.json").is_none());
}

#[test]
fn test_volume_path_for_nested_path() {
    assert_eq!(get_volume_path("/Volumes/CIRCUITPY/config.json").unwrap(), "/Volumes/CIRCUITPY");
    assert_eq!(
        get_volume_path("/media/alice/MIDICAPTAIN/config.json").unwrap(),
        "/media/alice/MIDICAPTAIN"
    );
    assert_eq!(get_volume_path("/run/media/alice/CIRCUITPY/x").unwrap(), "/run/media/alice/CIRCUITPY");
    assert!(get_volume_path("/tmp/config.json").is_none());
}

#[test]
fn test_authorize_accepts_device_paths() {
    assert!(authorize_canonical("/Volumes/CIRCUITPY/config.json").is_ok());
    assert!(authorize_canonical("/Volumes/midicaptain/config.json").is_ok());
}

#[test]
fn test_authorize_rejects_foreign_paths() {
    let err = authorize_canonical("/home/alice/config.json").unwrap_err();
    assert_eq!(err.message, "Could not determine volume name for path");
    let err = authorize_canonical("/Volumes/BackupDisk/config.json").unwrap_err();
    assert_eq!(
        err.message,
        "Path must be on a MIDI Captain device (CIRCUITPY or MIDICAPTAIN volume), found: BackupDisk"
    );
}

#[test]
fn test_validate_device_path_rejects_unresolvable() {
    let err = validate_device_path("/no/such/path/anywhere/config.json").unwrap_err();
    assert!(err.message.starts_with("Input watch path is neither a file nor a directory: "));
    assert!(err.message.len() > "Input watch path is neither a file nor a directory: ".len());
}

#[test]
fn test_check_labeled_volume() {
    let device = check_labeled_volume("/mnt/d", "midicaptain".to_string()).unwrap();
    assert_eq!(device.name, "midicaptain");
    assert_eq!(device.path, "/mnt/d");
    assert_eq!(device.config_path, "/mnt/d/config.json");
    assert!(check_labeled_volume("/mnt/d", "Recovery".to_string()).is_none());
}

#[test]
fn test_classify_entries_keeps_listing_order() {
    let entries = vec![
        "/Volumes/Backup".to_string(),
        "/Volumes/MIDICAPTAIN".to_string(),
        "/Volumes/Photos".to_string(),
        "/Volumes/circuitpy".to_string(),
    ];
    let devices = classify_entries(&entries);
    assert_eq!(devices.len(), 2);
    assert_eq!(devices[0].name, "MIDICAPTAIN");
    assert_eq!(devices[0].path, "/Volumes/MIDICAPTAIN");
    assert_eq!(devices[1].name, "circuitpy");
}

#[test]
fn test_watcher_start_is_idempotent() {
    let mut registry = WatcherRegistry::new();
    assert!(!registry.is_running());
    assert!(registry.try_start());
    assert!(registry.is_running());
    assert!(!registry.try_start());
    assert!(registry.is_running());
    registry.mark_stopped();
    assert!(!registry.is_running());
    assert!(registry.try_start());
}

#[test]
fn test_reconcile_swaps_known_set() {
    let known = vec!["A".to_string()];
    let current = vec!["B".to_string()];
    let outcome = reconcile(&known, &current);
    assert_eq!(outcome.connected, vec!["B".to_string()]);
    assert_eq!(outcome.disconnected, vec!["A".to_string()]);
    assert_eq!(outcome.known, vec!["B".to_string()]);
}

#[test]
fn test_reconcile_reports_no_change() {
    let known = vec!["CIRCUITPY".to_string()];
    let outcome = reconcile(&known, &known.clone());
    assert!(outcome.connected.is_empty());
    assert!(outcome.disconnected.is_empty());
    assert_eq!(outcome.known, known);
}

#[test]
fn test_reconcile_dedups_scan() {
    let known: Vec<String> = Vec::new();
    let current = vec!["A".to_string(), "A".to_string(), "B".to_string()];
    let outcome = reconcile(&known, &current);
    assert_eq!(outcome.connected, vec!["A".to_string(), "B".to_string()]);
    assert!(outcome.disconnected.is_empty());
    assert_eq!(outcome.known, vec!["A".to_string(), "B".to_string()]);
}

#[test]
fn test_watch_event_created() {
    let paths = vec!["/Volumes/CIRCUITPY".to_string(), "/Volumes/Backup".to_string()];
    let actions = watch_event_actions(WatchEventKind::Created, &paths);
    assert_eq!(actions.len(), 1);
    match &actions[0] {
        WatchNotification::Connected(d) => {
            assert_eq!(d.name, "CIRCUITPY");
            assert_eq!(d.path, "/Volumes/CIRCUITPY");
        },
        _ => panic!("expected a connect notification"),
    }
}

#[test]
fn test_watch_event_removed() {
    let paths = vec!["/Volumes/midicaptain".to_string(), "/Volumes/Backup".to_string()];
    let actions = watch_event_actions(WatchEventKind::Removed, &paths);
    assert_eq!(actions.len(), 1);
    match &actions[0] {
        WatchNotification::Disconnected(name) => assert_eq!(name.as_str(), "midicaptain"),
        _ => panic!("expected a disconnect notification"),
    }
}

#[test]
fn test_watch_event_other_ignored() {
    let paths = vec!["/Volumes/CIRCUITPY".to_string()];
    let actions = watch_event_actions(WatchEventKind::Other, &paths);
    assert!(actions.is_empty());
}

fn small_valid_config() -> MidiCaptainConfig {
    MidiCaptainConfig {
        device: DeviceType::Mini6,
        buttons: (0u8..6)
            .map(|i| ButtonConfig {
                label: "B".to_string(),
                cc: i,
                color: ButtonColor::Red,
                mode: ButtonMode::Toggle,
                off_mode: OffMode::Dim,
            })
            .collect(),
        encoder: None,
        expression: None,
    }
}

#[test]
fn test_is_volume_mounted() {
    assert!(is_volume_mounted(Some((5, 7))));
    assert!(!is_volume_mounted(Some((5, 5))));
    assert!(!is_volume_mounted(None));
}

#[test]
fn test_verify_device_connected() {
    assert!(verify_device_connected("/Volumes/CIRCUITPY/config.json", Some((5, 7))).is_ok());
    let err = verify_device_connected("/Volumes/CIRCUITPY/config.json", Some((5, 5))).unwrap_err();
    assert_eq!(err.message, "Device was disconnected");
    assert!(verify_device_connected("/tmp/elsewhere.json", None).is_ok());
}

#[test]
fn test_write_gate_refuses_unmounted_volume() {
    let config = small_valid_config();
    let err = write_gate("/Volumes/CIRCUITPY/config.json", Some((9, 9)), &config).unwrap_err();
    assert_eq!(err.message, "Device was disconnected");
}

#[test]
fn test_write_gate_refuses_invalid_config() {
    let mut config = small_valid_config();
    config.buttons.truncate(2);
    let err = write_gate("/Volumes/CIRCUITPY/config.json", Some((9, 4)), &config).unwrap_err();
    assert_eq!(err.message, "Validation failed");
    assert_eq!(err.details, Some(vec!["Expected 6 buttons for Mini6, found 2".to_string()]));
}

#[test]
fn test_write_gate_returns_document_text() {
    let config = small_valid_config();
    let text = write_gate("/Volumes/CIRCUITPY/config.json", Some((9, 4)), &config).unwrap();
    let value: serde_json::Value = serde_json::from_str(&text).unwrap();
    assert_eq!(value["device"], serde_json::Value::String("mini6".to_string()));
}
