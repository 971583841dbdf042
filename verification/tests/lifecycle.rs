use emuctl::control::{
    adb_devices_command, avd_name_command, delete_android_emulator_request, failure_message,
    find_screenshot_serial, find_stop_serial, list_avds_command, list_android_emulators_outcome,
    require_android_home, screenshot_android, screenshot_android_outcome,
    screenshot_android_request, screenshot_filename, start_android_emulator_outcome,
    start_android_emulator_request, stop_android_emulator_outcome, stop_android_emulator_request,
    wipe_android_data_request, CommandOutcome, SpawnPoll,
};
use emuctl::error::Error;
use emuctl::locator::{tool_path, Tool};

#[test]
fn tool_paths_join_root_and_suffix() {
    assert_eq!(tool_path("/sdk", Tool::Emulator, false), "/sdk/emulator/emulator");
    assert_eq!(tool_path("/sdk", Tool::Emulator, true), "/sdk/emulator/emulator.exe");
    assert_eq!(tool_path("/sdk", Tool::Adb, false), "/sdk/platform-tools/adb");
    assert_eq!(tool_path("/sdk", Tool::Adb, true), "/sdk/platform-tools/adb.exe");
    assert_eq!(
        tool_path("/sdk", Tool::AvdManager, false),
        "/sdk/cmdline-tools/latest/bin/avdmanager"
    );
    assert_eq!(
        tool_path("/sdk", Tool::AvdManager, true),
        "/sdk/cmdline-tools/latest/bin/avdmanager.bat"
    );
}

#[test]
fn missing_configuration_blocks_operations() {
    let r = require_android_home(&None);
    assert_eq!(r, Err(Error::ConfigurationMissing));
    assert_eq!(
        Error::ConfigurationMissing.message(),
        "Android SDK path not configured. Please set it in Settings."
    );
    let ok = require_android_home(&Some("/sdk".to_string()));
    assert_eq!(ok, Ok("/sdk".to_string()));
}

#[test]
fn listing_commands_carry_sdk_environment() {
    let c = list_avds_command("/sdk", false);
    assert_eq!(c.program, "/sdk/emulator/emulator");
    assert_eq!(c.args, vec!["-list-avds".to_string()]);
    assert_eq!(
        c.env,
        vec![
            ("ANDROID_HOME".to_string(), "/sdk".to_string()),
            ("ANDROID_SDK_ROOT".to_string(), "/sdk".to_string()),
        ]
    );
    let d = adb_devices_command("/sdk", false);
    assert_eq!(d.program, "/sdk/platform-tools/adb");
    assert_eq!(d.args, vec!["devices".to_string()]);
    assert!(d.env.is_empty());
    let n = avd_name_command("/sdk", false, "emulator-5554");
    assert_eq!(
        n.args,
        vec![
            "-s".to_string(),
            "emulator-5554".to_string(),
            "emu".to_string(),
            "avd".to_string(),
            "name".to_string(),
        ]
    );
}

#[test]
fn start_with_missing_binary_reports_tool_not_found() {
    let r = start_android_emulator_request("/sdk", false, false, "Pixel_5");
    match r {
        Err(Error::ToolNotFound(p)) => {
            assert_eq!(p, "/sdk/emulator/emulator");
            let e = Error::ToolNotFound(p);
            assert_eq!(
                e.message(),
                "Emulator not found at: /sdk/emulator/emulator. \
                 Please check your Android SDK path in Settings."
            );
        }
        other => panic!("expected ToolNotFound, got {:?}", other),
    }
}

#[test]
fn start_with_present_binary_plans_spawn() {
    let c = start_android_emulator_request("/sdk", false, true, "Pixel_5").unwrap();
    assert_eq!(c.program, "/sdk/emulator/emulator");
    assert_eq!(c.args, vec!["-avd".to_string(), "Pixel_5".to_string()]);
    assert_eq!(c.env.len(), 2);
}

#[test]
fn start_outcome_classification() {
    assert_eq!(start_android_emulator_outcome(&SpawnPoll::StillRunning), Ok(()));
    let clean = CommandOutcome { success: true, stdout: String::new(), stderr: String::new() };
    assert_eq!(
        start_android_emulator_outcome(&SpawnPoll::Exited(clean, "exit status: 0".to_string())),
        Err(Error::CommandFailed("Emulator exited with status: exit status: 0".to_string()))
    );
    let noisy = CommandOutcome {
        success: false,
        stdout: "out".to_string(),
        stderr: "bad avd".to_string(),
    };
    assert_eq!(
        start_android_emulator_outcome(&SpawnPoll::Exited(noisy, "exit status: 1".to_string())),
        Err(Error::CommandFailed("bad avd".to_string()))
    );
    let quiet_err = CommandOutcome {
        success: false,
        stdout: "only stdout".to_string(),
        stderr: String::new(),
    };
    assert_eq!(
        start_android_emulator_outcome(
            &SpawnPoll::Exited(quiet_err, "exit status: 1".to_string())
        ),
        Err(Error::CommandFailed("only stdout".to_string()))
    );
    let silent = CommandOutcome { success: false, stdout: String::new(), stderr: String::new() };
    assert_eq!(
        start_android_emulator_outcome(&SpawnPoll::Exited(silent, "exit status: 1".to_string())),
        Err(Error::CommandFailed("Emulator exited with status: exit status: 1".to_string()))
    );
    assert_eq!(
        start_android_emulator_outcome(&SpawnPoll::PollFailed("denied".to_string())),
        Err(Error::SpawnError("Failed to check process status: denied".to_string()))
    );
}

#[test]
fn listing_outcome_blocks_enumeration_on_failure() {
    let good = CommandOutcome { success: true, stdout: "Pixel_5\n".to_string(), stderr: String::new() };
    assert_eq!(list_android_emulators_outcome(&good), Ok(()));
    let bad = CommandOutcome { success: false, stdout: String::new(), stderr: "broken".to_string() };
    assert_eq!(
        list_android_emulators_outcome(&bad),
        Err(Error::CommandFailed("Failed to list Android emulators".to_string()))
    );
}

#[test]
fn screenshot_outcome_gates_the_filename() {
    let good = CommandOutcome { success: true, stdout: String::new(), stderr: String::new() };
    assert_eq!(
        screenshot_android_outcome(&good, "screenshot_a_t.png".to_string()),
        Ok("screenshot_a_t.png".to_string())
    );
    let bad = CommandOutcome {
        success: false,
        stdout: String::new(),
        stderr: "device offline".to_string(),
    };
    assert_eq!(
        screenshot_android_outcome(&bad, "screenshot_a_t.png".to_string()),
        Err(Error::CommandFailed("device offline".to_string()))
    );
}

#[test]
fn failure_message_prefers_stderr_then_stdout() {
    let o = CommandOutcome { success: false, stdout: "o".to_string(), stderr: "e".to_string() };
    assert_eq!(failure_message(&o), "e");
    let o2 = CommandOutcome { success: false, stdout: "o".to_string(), stderr: String::new() };
    assert_eq!(failure_message(&o2), "o");
}

#[test]
fn stop_without_matching_session_reports_device_not_found() {
    let r = stop_android_emulator_request(
        "/sdk",
        false,
        "List of devices attached\n\n",
        "emulator-5554",
    );
    match r {
        Err(Error::DeviceNotFound(m)) => {
            assert_eq!(m, "Emulator 'emulator-5554' not found in running devices");
        }
        other => panic!("expected DeviceNotFound, got {:?}", other),
    }
}

#[test]
fn stop_accepts_bare_session_suffix() {
    let listing = "List of devices attached\nemulator-5554\tdevice\n";
    let (c, serial) = stop_android_emulator_request("/sdk", false, listing, "5554").unwrap();
    assert_eq!(serial, "emulator-5554");
    assert_eq!(c.program, "/sdk/platform-tools/adb");
    assert_eq!(
        c.args,
        vec![
            "-s".to_string(),
            "emulator-5554".to_string(),
            "emu".to_string(),
            "kill".to_string(),
        ]
    );
}

#[test]
fn stop_serial_search_takes_first_matching_line() {
    let listing = "emulator-5554\tdevice\nemulator-5556\tdevice\n";
    assert_eq!(find_stop_serial(listing, "emulator-555"), Some("emulator-5554".to_string()));
    assert_eq!(find_stop_serial(listing, "5556"), Some("emulator-5556".to_string()));
    assert_eq!(find_stop_serial(listing, "emulator-5558"), None);
}

#[test]
fn stop_outcome_reports_captured_stderr() {
    let good = CommandOutcome { success: true, stdout: String::new(), stderr: String::new() };
    assert_eq!(stop_android_emulator_outcome(&good, "emulator-5554"), Ok(()));
    let bad = CommandOutcome {
        success: false,
        stdout: String::new(),
        stderr: "no such device".to_string(),
    };
    assert_eq!(
        stop_android_emulator_outcome(&bad, "emulator-5554"),
        Err(Error::CommandFailed(
            "Failed to stop emulator emulator-5554: no such device".to_string()
        ))
    );
}

#[test]
fn delete_and_wipe_plans_use_documented_flags() {
    let d = delete_android_emulator_request("/sdk", true, "Pixel_5");
    assert_eq!(d.program, "/sdk/cmdline-tools/latest/bin/avdmanager.bat");
    assert_eq!(
        d.args,
        vec!["delete".to_string(), "avd".to_string(), "-n".to_string(), "Pixel_5".to_string()]
    );
    let w = wipe_android_data_request("/sdk", false, "Pixel_5");
    assert_eq!(w.program, "/sdk/emulator/emulator");
    assert_eq!(
        w.args,
        vec!["-avd".to_string(), "Pixel_5".to_string(), "-wipe-data".to_string()]
    );
}

#[test]
fn screenshot_filename_embeds_identity_and_timestamp() {
    assert_eq!(
        screenshot_filename("emulator-5554", "20240101_120000"),
        "screenshot_emulator-5554_20240101_120000.png"
    );
}

#[test]
fn screenshot_plans_capture_and_filename() {
    let listing = "emulator-5554 device\n";
    let (c, filename) = screenshot_android_request(
        "/sdk",
        false,
        listing,
        "emulator-5554",
        "20240101_120000",
    )
    .unwrap();
    assert_eq!(filename, "screenshot_emulator-5554_20240101_120000.png");
    assert_eq!(c.program, "/sdk/platform-tools/adb");
    assert_eq!(
        c.args,
        vec![
            "-s".to_string(),
            "emulator-5554".to_string(),
            "exec-out".to_string(),
            "screencap".to_string(),
            "-p".to_string(),
        ]
    );
}

#[test]
fn screenshot_without_matching_session_reports_device_not_found() {
    let r = screenshot_android_request("/sdk", false, "nothing here\n", "emulator-5554", "t");
    assert_eq!(r, Err(Error::DeviceNotFound("Emulator not found".to_string())));
    let r2 = screenshot_android("/sdk", false, "nothing here\n", "emulator-5554");
    assert_eq!(r2, Err(Error::DeviceNotFound("Emulator not found".to_string())));
}

#[test]
fn screenshot_with_clock_follows_filename_pattern() {
    let listing = "emulator-5554 device\n";
    let (_, filename) = screenshot_android("/sdk", false, listing, "emulator-5554").unwrap();
    assert!(filename.starts_with("screenshot_emulator-5554_"));
    assert!(filename.ends_with(".png"));
    let stamp = &filename["screenshot_emulator-5554_".len()..filename.len() - ".png".len()];
    assert_eq!(stamp.len(), 15);
    assert!(stamp.chars().all(|c| c.is_ascii_digit() || c == '_'));
}

#[test]
fn screenshot_serial_search_uses_plain_containment() {
    assert_eq!(
        find_screenshot_serial("emulator-5554 device\n", "5554"),
        Some("emulator-5554".to_string())
    );
    assert_eq!(find_screenshot_serial("emulator-5554 device\n", "5556"), None);
}
