//! The lifecycle controller: plans each operation's external invocation
//! from plain inputs, finds the live session an operation targets, and
//! classifies what the external tool produced.  The embedding application
//! resolves the configuration, spawns the planned commands and hands the
//! outcomes back.

use vstd::prelude::*;
use crate::error::Error;
use crate::locator::{tool_path, tool_path_spec, Tool};
use crate::text::{contains_str, first_token, first_token_str, has_substring, lines_of, lines_str};

verus! {

/// What one finished external invocation produced: the exit success
/// flag and the captured output streams.
#[derive(Debug, Clone)]
pub struct CommandOutcome {
    pub success: bool,
    pub stdout: String,
    pub stderr: String,
}

/// The message a failed invocation reports: its standard error when it
/// wrote any, else its standard output, else a generic status message.
pub open spec fn failure_message_spec(o: CommandOutcome) -> Seq<char> {
    if o.stderr@.len() > 0 {
        o.stderr@
    } else if o.stdout@.len() > 0 {
        o.stdout@
    } else {
        "Process exited with an unexpected status"@
    }
}

/// Picks the display message of a failed invocation, per
/// [`failure_message_spec`].
pub fn failure_message(o: &CommandOutcome) -> (r: String)
    ensures
        r@ == failure_message_spec(*o),
{
    if !o.stderr.as_str().is_empty() {
        o.stderr.clone()
    } else if !o.stdout.as_str().is_empty() {
        o.stdout.clone()
    } else {
        String::from_str("Process exited with an unexpected status")
    }
}

/// The observed state of a freshly spawned process once the fixed grace
/// interval has passed.
#[derive(Debug, Clone)]
pub enum SpawnPoll {
    /// The process already exited; holds what it produced and the
    /// display rendering of its exit status.
    Exited(CommandOutcome, String),
    /// The process is still running, which the start flow takes as
    /// success.
    StillRunning,
    /// The poll itself could not be made; holds the detail supplied by
    /// the embedder.
    PollFailed(String),
}

/// The message an early exit of the observed start spawn reports: its
/// standard error when it wrote any, else its standard output, else the
/// rendering of its exit status behind a fixed prefix.
pub open spec fn start_failure_message_spec(o: CommandOutcome, status_text: Seq<char>) -> Seq<
    char,
> {
    if o.stderr@.len() > 0 {
        o.stderr@
    } else if o.stdout@.len() > 0 {
        o.stdout@
    } else {
        "Emulator exited with status: "@ + status_text
    }
}

/// Picks the early-exit message of the start flow, per
/// [`start_failure_message_spec`].
pub fn start_failure_message(o: &CommandOutcome, status_text: &str) -> (r: String)
    ensures
        r@ == start_failure_message_spec(*o, status_text@),
{
    if !o.stderr.as_str().is_empty() {
        o.stderr.clone()
    } else if !o.stdout.as_str().is_empty() {
        o.stdout.clone()
    } else {
        let mut m = String::from_str("Emulator exited with status: ");
        m.append(status_text);
        m
    }
}

/// Classifies the start flow's observation.  A process still running
/// after the grace interval is optimistic success; any early exit —
/// whatever its status — is an error carrying the captured output,
/// since a healthy emulator keeps running; a failed poll is a
/// spawn-level error.
pub fn start_android_emulator_outcome(poll: &SpawnPoll) -> (r: Result<(), Error>)
    ensures
        match *poll {
            SpawnPoll::Exited(o, st) => (match r {
                Err(Error::CommandFailed(m)) => m@ == start_failure_message_spec(o, st@),
                _ => false,
            }),
            SpawnPoll::StillRunning => r == Ok::<(), Error>(()),
            SpawnPoll::PollFailed(d) => (match r {
                Err(Error::SpawnError(m)) => m@ == "Failed to check process status: "@ + d@,
                _ => false,
            }),
        },
{
    match poll {
        SpawnPoll::Exited(o, st) => Err(Error::CommandFailed(start_failure_message(
            o,
            st.as_str(),
        ))),
        SpawnPoll::StillRunning => Ok(()),
        SpawnPoll::PollFailed(d) => {
            let mut m = String::from_str("Failed to check process status: ");
            m.append(d.as_str());
            Err(Error::SpawnError(m))
        },
    }
}

/// One planned external invocation: the program path, its arguments and
/// the extra environment entries to set.
#[derive(Debug, Clone, PartialEq, Eq)]
pub struct CommandSpec {
    pub program: String,
    pub args: Vec<String>,
    pub env: Vec<(String, String)>,
}

/// The two SDK environment entries the vendor tools read.
fn sdk_env(home: &str) -> (r: Vec<(String, String)>)
    ensures
        r@.len() == 2,
        r@[0].0@ == "ANDROID_HOME"@ && r@[0].1@ == home@,
        r@[1].0@ == "ANDROID_SDK_ROOT"@ && r@[1].1@ == home@,
{
    let mut v: Vec<(String, String)> = Vec::new();
    v.push((String::from_str("ANDROID_HOME"), String::from_str(home)));
    v.push((String::from_str("ANDROID_SDK_ROOT"), String::from_str(home)));
    v
}

/// Requires a configured SDK root: absence is the recoverable,
/// operation-blocking configuration error.
pub fn require_android_home(home: &Option<String>) -> (r: Result<String, Error>)
    ensures
        match home {
            Some(h) => (match r {
                Ok(s) => s@ == h@,
                Err(_) => false,
            }),
            None => r == Err::<String, Error>(Error::ConfigurationMissing),
        },
{
    match home {
        Some(h) => Ok(h.clone()),
        None => Err(Error::ConfigurationMissing),
    }
}

/// The idle-image listing invocation: the emulator tool in its
/// list-configured-devices mode, with the SDK environment set.
pub fn list_avds_command(home: &str, windows: bool) -> (r: CommandSpec)
    ensures
        r.program@ == tool_path_spec(home@, Tool::Emulator, windows),
        r.args@.len() == 1 && r.args@[0]@ == "-list-avds"@,
        r.env@.len() == 2,
        r.env@[0].0@ == "ANDROID_HOME"@ && r.env@[0].1@ == home@,
        r.env@[1].0@ == "ANDROID_SDK_ROOT"@ && r.env@[1].1@ == home@,
{
    let mut args: Vec<String> = Vec::new();
    args.push(String::from_str("-list-avds"));
    CommandSpec { program: tool_path(home, Tool::Emulator, windows), args, env: sdk_env(home) }
}

/// Classifies the idle-image listing's outcome: a failing exit of the
/// listing tool blocks enumeration with a fixed command-failure report.
pub fn list_android_emulators_outcome(outcome: &CommandOutcome) -> (r: Result<(), Error>)
    ensures
        outcome.success ==> r == Ok::<(), Error>(()),
        !outcome.success ==> (match r {
            Err(Error::CommandFailed(m)) => m@ == "Failed to list Android emulators"@,
            _ => false,
        }),
{
    if outcome.success {
        Ok(())
    } else {
        Err(Error::CommandFailed(String::from_str("Failed to list Android emulators")))
    }
}

/// The live-session listing invocation.
pub fn adb_devices_command(home: &str, windows: bool) -> (r: CommandSpec)
    ensures
        r.program@ == tool_path_spec(home@, Tool::Adb, windows),
        r.args@.len() == 1 && r.args@[0]@ == "devices"@,
        r.env@.len() == 0,
{
    let mut args: Vec<String> = Vec::new();
    args.push(String::from_str("devices"));
    CommandSpec { program: tool_path(home, Tool::Adb, windows), args, env: Vec::new() }
}

/// The per-session name query: asks one live session for the
/// configured-image name it was instantiated from.
pub fn avd_name_command(home: &str, windows: bool, serial: &str) -> (r: CommandSpec)
    ensures
        r.program@ == tool_path_spec(home@, Tool::Adb, windows),
        r.args@.len() == 5,
        r.args@[0]@ == "-s"@ && r.args@[1]@ == serial@ && r.args@[2]@ == "emu"@ && r.args@[3]@
            == "avd"@ && r.args@[4]@ == "name"@,
        r.env@.len() == 0,
{
    let mut args: Vec<String> = Vec::new();
    args.push(String::from_str("-s"));
    args.push(String::from_str(serial));
    args.push(String::from_str("emu"));
    args.push(String::from_str("avd"));
    args.push(String::from_str("name"));
    CommandSpec { program: tool_path(home, Tool::Adb, windows), args, env: Vec::new() }
}

/// Plans the start of a configured image.  The caller states whether the
/// resolved emulator binary exists on disk; when it does not, the
/// operation fails up front with the tool-not-found error naming that
/// path, a clearer report than a bare spawn failure.
pub fn start_android_emulator_request(
    home: &str,
    windows: bool,
    emulator_exists: bool,
    id: &str,
) -> (r: Result<CommandSpec, Error>)
    ensures
        !emulator_exists ==> (match r {
            Err(Error::ToolNotFound(p)) => p@ == tool_path_spec(home@, Tool::Emulator, windows),
            _ => false,
        }),
        emulator_exists ==> (match r {
            Ok(c) => {
                &&& c.program@ == tool_path_spec(home@, Tool::Emulator, windows)
                &&& c.args@.len() == 2
                &&& c.args@[0]@ == "-avd"@
                &&& c.args@[1]@ == id@
                &&& c.env@.len() == 2
                &&& c.env@[0].0@ == "ANDROID_HOME"@ && c.env@[0].1@ == home@
                &&& c.env@[1].0@ == "ANDROID_SDK_ROOT"@ && c.env@[1].1@ == home@
            },
            Err(_) => false,
        }),
{
    let program = tool_path(home, Tool::Emulator, windows);
    if !emulator_exists {
        return Err(Error::ToolNotFound(program));
    }
    let mut args: Vec<String> = Vec::new();
    args.push(String::from_str("-avd"));
    args.push(String::from_str(id));
    Ok(CommandSpec { program, args, env: sdk_env(home) })
}

/// True of a session-listing line the stop operation accepts for `id`:
/// the line holds `id` itself or `id` behind the session prefix, and it
/// has a leading token to serve as the serial.
pub open spec fn stop_line_matches(line: Seq<char>, id: Seq<char>) -> bool {
    (has_substring(line, id) || has_substring(line, "emulator-"@ + id)) && first_token(
        line,
    ).len() > 0
}

/// The message reported when the stop operation finds no live session
/// for the identity.
pub open spec fn stop_not_found_message(id: Seq<char>) -> Seq<char> {
    "Emulator '"@ + id + "' not found in running devices"@
}

/// Finds the serial of the first session line the stop operation accepts
/// for `id`, searching the session listing in order.
pub fn find_stop_serial(devices_stdout: &str, id: &str) -> (r: Option<String>)
    ensures
        match r {
            Some(serial) => exists|i: int|
                0 <= i < lines_of(devices_stdout@).len() && #[trigger] stop_line_matches(
                    lines_of(devices_stdout@)[i],
                    id@,
                ) && serial@ == first_token(lines_of(devices_stdout@)[i]) && (forall|j: int|
                    0 <= j < i ==> !stop_line_matches(lines_of(devices_stdout@)[j], id@)),
            None => forall|i: int|
                0 <= i < lines_of(devices_stdout@).len() ==> !stop_line_matches(
                    lines_of(devices_stdout@)[i],
                    id@,
                ),
        },
{
    let lines = lines_str(devices_stdout);
    let mut prefixed = String::from_str("emulator-");
    prefixed.append(id);
    let mut i: usize = 0;
    while i < lines.len()
        invariant
            0 <= i <= lines@.len(),
            lines@.len() == lines_of(devices_stdout@).len(),
            forall|j: int| 0 <= j < lines@.len() ==> lines@[j]@ == lines_of(devices_stdout@)[j],
            prefixed@ == "emulator-"@ + id@,
            forall|j: int| 0 <= j < i ==> !stop_line_matches(lines_of(devices_stdout@)[j], id@),
        decreases lines@.len() - i,
    {
        let line = &lines[i];
        if contains_str(line.as_str(), id) || contains_str(line.as_str(), prefixed.as_str()) {
            match first_token_str(line.as_str()) {
                Some(token) => {
                    proof {
                        assert(stop_line_matches(lines_of(devices_stdout@)[i as int], id@));
                    }
                    return Some(token);
                },
                None => {
                    proof {
                        assert(!stop_line_matches(lines_of(devices_stdout@)[i as int], id@));
                    }
                },
            }
        } else {
            proof {
                assert(!stop_line_matches(lines_of(devices_stdout@)[i as int], id@));
            }
        }
        i = i + 1;
    }
    None
}

/// Plans the stop of a live session: the first accepted session line
/// yields the serial the kill subcommand targets; with no accepted line
/// the operation fails with the device-not-found error.
pub fn stop_android_emulator_request(
    home: &str,
    windows: bool,
    devices_stdout: &str,
    id: &str,
) -> (r: Result<(CommandSpec, String), Error>)
    ensures
        match r {
            Ok((c, serial)) => {
                &&& exists|i: int|
                    0 <= i < lines_of(devices_stdout@).len() && #[trigger] stop_line_matches(
                        lines_of(devices_stdout@)[i],
                        id@,
                    ) && serial@ == first_token(lines_of(devices_stdout@)[i]) && (forall|j: int|
                        0 <= j < i ==> !stop_line_matches(lines_of(devices_stdout@)[j], id@))
                &&& c.program@ == tool_path_spec(home@, Tool::Adb, windows)
                &&& c.args@.len() == 4
                &&& c.args@[0]@ == "-s"@
                &&& c.args@[1]@ == serial@
                &&& c.args@[2]@ == "emu"@
                &&& c.args@[3]@ == "kill"@
                &&& c.env@.len() == 0
            },
            Err(e) => {
                &&& forall|i: int|
                    0 <= i < lines_of(devices_stdout@).len() ==> !stop_line_matches(
                        lines_of(devices_stdout@)[i],
                        id@,
                    )
                &&& (match e {
                    Error::DeviceNotFound(m) => m@ == stop_not_found_message(id@),
                    _ => false,
                })
            },
        },
{
    match find_stop_serial(devices_stdout, id) {
        Some(serial) => {
            let mut args: Vec<String> = Vec::new();
            args.push(String::from_str("-s"));
            args.push(serial.clone());
            args.push(String::from_str("emu"));
            args.push(String::from_str("kill"));
            let c = CommandSpec {
                program: tool_path(home, Tool::Adb, windows),
                args,
                env: Vec::new(),
            };
            Ok((c, serial))
        },
        None => {
            let mut m = String::from_str("Emulator '");
            m.append(id);
            m.append("' not found in running devices");
            Err(Error::DeviceNotFound(m))
        },
    }
}

/// Classifies the kill subcommand's outcome: a failing exit reports the
/// captured standard error against the targeted serial.
pub fn stop_android_emulator_outcome(outcome: &CommandOutcome, serial: &str) -> (r: Result<
    (),
    Error,
>)
    ensures
        outcome.success ==> r == Ok::<(), Error>(()),
        !outcome.success ==> (match r {
            Err(Error::CommandFailed(m)) => m@ == "Failed to stop emulator "@ + serial@ + ": "@
                + outcome.stderr@,
            _ => false,
        }),
{
    if outcome.success {
        Ok(())
    } else {
        let mut m = String::from_str("Failed to stop emulator ");
        m.append(serial);
        m.append(": ");
        m.append(outcome.stderr.as_str());
        Err(Error::CommandFailed(m))
    }
}

/// Plans the deletion of a configured image through the image manager
/// tool.  As in the rest of the controller, only spawn-level failures
/// surface for this operation; the tool's own exit status is not
/// inspected — a documented gap.
pub fn delete_android_emulator_request(home: &str, windows: bool, id: &str) -> (r: CommandSpec)
    ensures
        r.program@ == tool_path_spec(home@, Tool::AvdManager, windows),
        r.args@.len() == 4,
        r.args@[0]@ == "delete"@ && r.args@[1]@ == "avd"@ && r.args@[2]@ == "-n"@ && r.args@[3]@
            == id@,
        r.env@.len() == 0,
{
    let mut args: Vec<String> = Vec::new();
    args.push(String::from_str("delete"));
    args.push(String::from_str("avd"));
    args.push(String::from_str("-n"));
    args.push(String::from_str(id));
    CommandSpec { program: tool_path(home, Tool::AvdManager, windows), args, env: Vec::new() }
}

/// Plans the data wipe of a configured image: launched detached, by
/// design fire-and-forget, so no outcome is collected.
pub fn wipe_android_data_request(home: &str, windows: bool, id: &str) -> (r: CommandSpec)
    ensures
        r.program@ == tool_path_spec(home@, Tool::Emulator, windows),
        r.args@.len() == 3,
        r.args@[0]@ == "-avd"@ && r.args@[1]@ == id@ && r.args@[2]@ == "-wipe-data"@,
        r.env@.len() == 0,
{
    let mut args: Vec<String> = Vec::new();
    args.push(String::from_str("-avd"));
    args.push(String::from_str(id));
    args.push(String::from_str("-wipe-data"));
    CommandSpec { program: tool_path(home, Tool::Emulator, windows), args, env: Vec::new() }
}

/// True of a session-listing line the screenshot operation accepts for
/// `id`: the line holds `id` and has a leading token to serve as the
/// serial.
pub open spec fn screenshot_line_matches(line: Seq<char>, id: Seq<char>) -> bool {
    has_substring(line, id) && first_token(line).len() > 0
}

/// The filename a successful screenshot reports: the identity and the
/// timestamp embedded in a fixed pattern.
pub open spec fn screenshot_filename_spec(id: Seq<char>, timestamp: Seq<char>) -> Seq<char> {
    "screenshot_"@ + id + "_"@ + timestamp + ".png"@
}

/// Builds the screenshot filename, per [`screenshot_filename_spec`].
pub fn screenshot_filename(id: &str, timestamp: &str) -> (r: String)
    ensures
        r@ == screenshot_filename_spec(id@, timestamp@),
{
    let mut s = String::from_str("screenshot_");
    s.append(id);
    s.append("_");
    s.append(timestamp);
    s.append(".png");
    s
}

/// Finds the serial of the first session line the screenshot operation
/// accepts for `id`.
pub fn find_screenshot_serial(devices_stdout: &str, id: &str) -> (r: Option<String>)
    ensures
        match r {
            Some(serial) => exists|i: int|
                0 <= i < lines_of(devices_stdout@).len() && #[trigger] screenshot_line_matches(
                    lines_of(devices_stdout@)[i],
                    id@,
                ) && serial@ == first_token(lines_of(devices_stdout@)[i]) && (forall|j: int|
                    0 <= j < i ==> !screenshot_line_matches(lines_of(devices_stdout@)[j], id@)),
            None => forall|i: int|
                0 <= i < lines_of(devices_stdout@).len() ==> !screenshot_line_matches(
                    lines_of(devices_stdout@)[i],
                    id@,
                ),
        },
{
    let lines = lines_str(devices_stdout);
    let mut i: usize = 0;
    while i < lines.len()
        invariant
            0 <= i <= lines@.len(),
            lines@.len() == lines_of(devices_stdout@).len(),
            forall|j: int| 0 <= j < lines@.len() ==> lines@[j]@ == lines_of(devices_stdout@)[j],
            forall|j: int|
                0 <= j < i ==> !screenshot_line_matches(lines_of(devices_stdout@)[j], id@),
        decreases lines@.len() - i,
    {
        let line = &lines[i];
        if contains_str(line.as_str(), id) {
            match first_token_str(line.as_str()) {
                Some(token) => {
                    proof {
                        assert(screenshot_line_matches(lines_of(devices_stdout@)[i as int], id@));
                    }
                    return Some(token);
                },
                None => {
                    proof {
                        assert(!screenshot_line_matches(
                            lines_of(devices_stdout@)[i as int],
                            id@,
                        ));
                    }
                },
            }
        } else {
            proof {
                assert(!screenshot_line_matches(lines_of(devices_stdout@)[i as int], id@));
            }
        }
        i = i + 1;
    }
    None
}

/// Plans the screenshot of a live session against a given timestamp:
/// the first accepted session line yields the serial the screen-capture
/// subcommand targets, and the reported filename embeds the identity and
/// the timestamp.  With no accepted line the operation fails with the
/// device-not-found error.
pub fn screenshot_android_request(
    home: &str,
    windows: bool,
    devices_stdout: &str,
    id: &str,
    timestamp: &str,
) -> (r: Result<(CommandSpec, String), Error>)
    ensures
        match r {
            Ok((c, filename)) => {
                &&& exists|i: int|
                    0 <= i < lines_of(devices_stdout@).len() && #[trigger] screenshot_line_matches(
                        lines_of(devices_stdout@)[i],
                        id@,
                    ) && c.args@.len() == 5 && c.args@[1]@ == first_token(
                        lines_of(devices_stdout@)[i],
                    ) && (forall|j: int|
                        0 <= j < i ==> !screenshot_line_matches(lines_of(devices_stdout@)[j], id@))
                &&& filename@ == screenshot_filename_spec(id@, timestamp@)
                &&& c.program@ == tool_path_spec(home@, Tool::Adb, windows)
                &&& c.args@.len() == 5
                &&& c.args@[0]@ == "-s"@
                &&& c.args@[2]@ == "exec-out"@
                &&& c.args@[3]@ == "screencap"@
                &&& c.args@[4]@ == "-p"@
                &&& c.env@.len() == 0
            },
            Err(e) => {
                &&& forall|i: int|
                    0 <= i < lines_of(devices_stdout@).len() ==> !screenshot_line_matches(
                        lines_of(devices_stdout@)[i],
                        id@,
                    )
                &&& (match e {
                    Error::DeviceNotFound(m) => m@ == "Emulator not found"@,
                    _ => false,
                })
            },
        },
{
    match find_screenshot_serial(devices_stdout, id) {
        Some(serial) => {
            let mut args: Vec<String> = Vec::new();
            args.push(String::from_str("-s"));
            args.push(serial);
            args.push(String::from_str("exec-out"));
            args.push(String::from_str("screencap"));
            args.push(String::from_str("-p"));
            let c = CommandSpec {
                program: tool_path(home, Tool::Adb, windows),
                args,
                env: Vec::new(),
            };
            Ok((c, screenshot_filename(id, timestamp)))
        },
        None => Err(Error::DeviceNotFound(String::from_str("Emulator not found"))),
    }
}

/// Plans the screenshot of a live session against the local clock: as
/// [`screenshot_android_request`], with the timestamp read now.  The
/// clock decides the stamp, so the filename is only known to follow the
/// fixed pattern for some timestamp value.
pub fn screenshot_android(home: &str, windows: bool, devices_stdout: &str, id: &str) -> (r: Result<
    (CommandSpec, String),
    Error,
>)
    ensures
        match r {
            Ok((c, filename)) => {
                &&& exists|i: int|
                    0 <= i < lines_of(devices_stdout@).len() && #[trigger] screenshot_line_matches(
                        lines_of(devices_stdout@)[i],
                        id@,
                    ) && c.args@.len() == 5 && c.args@[1]@ == first_token(
                        lines_of(devices_stdout@)[i],
                    ) && (forall|j: int|
                        0 <= j < i ==> !screenshot_line_matches(lines_of(devices_stdout@)[j], id@))
                &&& exists|ts: Seq<char>| filename@ == screenshot_filename_spec(id@, ts)
                &&& c.program@ == tool_path_spec(home@, Tool::Adb, windows)
                &&& c.args@.len() == 5
                &&& c.args@[0]@ == "-s"@
                &&& c.args@[2]@ == "exec-out"@
                &&& c.args@[3]@ == "screencap"@
                &&& c.args@[4]@ == "-p"@
                &&& c.env@.len() == 0
            },
            Err(e) => {
                &&& forall|i: int|
                    0 <= i < lines_of(devices_stdout@).len() ==> !screenshot_line_matches(
                        lines_of(devices_stdout@)[i],
                        id@,
                    )
                &&& (match e {
                    Error::DeviceNotFound(m) => m@ == "Emulator not found"@,
                    _ => false,
                })
            },
        },
{
    match find_screenshot_serial(devices_stdout, id) {
        Some(_) => {
            let timestamp = crate::clock::local_timestamp();
            screenshot_android_request(home, windows, devices_stdout, id, timestamp.as_str())
        },
        None => Err(Error::DeviceNotFound(String::from_str("Emulator not found"))),
    }
}

/// Classifies the screen-capture outcome: only a successful exit of the
/// capture subcommand earns the planned filename; a failing exit is a
/// command failure carrying the captured output.
pub fn screenshot_android_outcome(outcome: &CommandOutcome, filename: String) -> (r: Result<
    String,
    Error,
>)
    ensures
        outcome.success ==> (match r {
            Ok(f) => f@ == filename@,
            Err(_) => false,
        }),
        !outcome.success ==> (match r {
            Err(Error::CommandFailed(m)) => m@ == failure_message_spec(*outcome),
            _ => false,
        }),
{
    if outcome.success {
        Ok(filename)
    } else {
        Err(Error::CommandFailed(failure_message(outcome)))
    }
}

} // verus!
