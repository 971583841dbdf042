use emuctl::device::{
    list_android_emulators, parse_avd_list, parse_avd_name_reply, parse_session_serials,
    AndroidEmulator, DeviceStatus, Session,
};

#[test]
fn idle_line_becomes_one_stopped_record() {
    let records = parse_avd_list("Pixel_5\n");
    assert_eq!(records.len(), 1);
    assert_eq!(records[0].id, "Pixel_5");
    assert_eq!(records[0].name, "Pixel_5");
    assert_eq!(records[0].device_type, "Pixel_5");
    assert_eq!(records[0].os_version, "");
    assert_eq!(records[0].status, DeviceStatus::Stopped);
}

#[test]
fn idle_lines_are_trimmed_and_blank_lines_skipped() {
    let records = parse_avd_list("Pixel_5\n\n  Tablet_API_33  \n   \n");
    assert_eq!(records.len(), 2);
    assert_eq!(records[0].name, "Pixel_5");
    assert_eq!(records[1].name, "Tablet_API_33");
    assert!(records.iter().all(|r| r.status == DeviceStatus::Stopped));
}

#[test]
fn empty_listing_yields_no_records() {
    let records = parse_avd_list("");
    assert_eq!(records.len(), 0);
}

#[test]
fn enumerate_without_sessions_returns_full_idle_set() {
    let sessions: Vec<Session> = Vec::new();
    let records = list_android_emulators("Pixel_5\nTablet_API_33\n", &sessions);
    assert_eq!(records.len(), 2);
    assert!(records.iter().all(|r| r.status == DeviceStatus::Stopped));
    assert_eq!(records[0].id, "Pixel_5");
    assert_eq!(records[1].id, "Tablet_API_33");
}

#[test]
fn single_idle_image_no_sessions_scenario() {
    let sessions: Vec<Session> = Vec::new();
    let records = list_android_emulators("Pixel_5\n", &sessions);
    assert_eq!(records.len(), 1);
    assert_eq!(records[0].id, "Pixel_5");
    assert_eq!(records[0].status, DeviceStatus::Stopped);
}

#[test]
fn matched_session_marks_running_and_replaces_handle() {
    let sessions = vec![Session {
        serial: "emulator-5554".to_string(),
        name_reply: "Pixel_5\r\nOK\n".to_string(),
    }];
    let records = list_android_emulators("Pixel_5\n", &sessions);
    assert_eq!(records.len(), 1);
    assert_eq!(records[0].status, DeviceStatus::Running);
    assert_eq!(records[0].id, "emulator-5554");
    assert_eq!(records[0].name, "Pixel_5");
}

#[test]
fn unmatched_session_never_appears() {
    let sessions = vec![Session {
        serial: "emulator-5554".to_string(),
        name_reply: "SomeOtherImage\n".to_string(),
    }];
    let records = list_android_emulators("Pixel_5\n", &sessions);
    assert_eq!(records.len(), 1);
    assert_eq!(records[0].status, DeviceStatus::Stopped);
    assert_eq!(records[0].id, "Pixel_5");
}

#[test]
fn empty_name_reply_changes_nothing() {
    let sessions = vec![Session { serial: "emulator-5554".to_string(), name_reply: String::new() }];
    let records = list_android_emulators("Pixel_5\n", &sessions);
    assert_eq!(records[0].status, DeviceStatus::Stopped);
}

#[test]
fn only_first_record_of_a_name_is_marked() {
    let sessions = vec![Session {
        serial: "emulator-5554".to_string(),
        name_reply: "Pixel_5\n".to_string(),
    }];
    let records = list_android_emulators("Pixel_5\nPixel_5\n", &sessions);
    assert_eq!(records.len(), 2);
    assert_eq!(records[0].status, DeviceStatus::Running);
    assert_eq!(records[0].id, "emulator-5554");
    assert_eq!(records[1].status, DeviceStatus::Stopped);
}

#[test]
fn later_session_of_same_image_wins_the_handle() {
    let sessions = vec![
        Session {
            serial: "emulator-5554".to_string(),
            name_reply: "Pixel_5\n".to_string(),
        },
        Session {
            serial: "emulator-5556".to_string(),
            name_reply: "Pixel_5\n".to_string(),
        },
    ];
    let records = list_android_emulators("Pixel_5\n", &sessions);
    assert_eq!(records.len(), 1);
    assert_eq!(records[0].status, DeviceStatus::Running);
    assert_eq!(records[0].id, "emulator-5556");
    assert_eq!(records[0].name, "Pixel_5");
}

#[test]
fn session_serials_taken_from_attached_lines_only() {
    let listing = "List of devices attached\nemulator-5554\tdevice\nemulator-5556\toffline\n";
    let serials = parse_session_serials(listing);
    assert_eq!(serials, vec!["emulator-5554".to_string()]);
}

#[test]
fn session_serial_is_first_whitespace_token() {
    let listing = "  emulator-5554   device product:sdk_gphone64\n";
    let serials = parse_session_serials(listing);
    assert_eq!(serials, vec!["emulator-5554".to_string()]);
}

#[test]
fn name_reply_takes_trimmed_first_line() {
    assert_eq!(parse_avd_name_reply("Pixel_5\r\nOK\n"), Some("Pixel_5".to_string()));
    assert_eq!(parse_avd_name_reply("  Pixel_5  "), Some("Pixel_5".to_string()));
    assert_eq!(parse_avd_name_reply(""), None);
}

#[test]
fn record_type_is_plain_data() {
    let r = AndroidEmulator {
        id: "a".to_string(),
        name: "a".to_string(),
        device_type: "a".to_string(),
        os_version: String::new(),
        status: DeviceStatus::Stopped,
    };
    let s = r.clone();
    assert_eq!(r, s);
}
