//! Resolves the filesystem paths of the vendor command-line tools under a
//! configured SDK root.

use vstd::prelude::*;

verus! {

/// The three vendor executables the control layer invokes.
#[derive(Debug, Clone, Copy, PartialEq, Eq, Structural)]
pub enum Tool {
    Emulator,
    Adb,
    AvdManager,
}

/// The tool's path relative to the SDK root; hosts of the Windows family
/// add the executable suffix.
pub open spec fn tool_rel_spec(tool: Tool, windows: bool) -> Seq<char> {
    match tool {
        Tool::Emulator => if windows {
            "emulator/emulator.exe"@
        } else {
            "emulator/emulator"@
        },
        Tool::Adb => if windows {
            "platform-tools/adb.exe"@
        } else {
            "platform-tools/adb"@
        },
        Tool::AvdManager => if windows {
            "cmdline-tools/latest/bin/avdmanager.bat"@
        } else {
            "cmdline-tools/latest/bin/avdmanager"@
        },
    }
}

/// The platform-correct path of a tool under the SDK root.
pub open spec fn tool_path_spec(root: Seq<char>, tool: Tool, windows: bool) -> Seq<char> {
    root + "/"@ + tool_rel_spec(tool, windows)
}

/// Joins the SDK root with the tool's expected subdirectory and name.
/// Whether the file exists is not checked here; callers that need a
/// clearer error than a bare spawn failure check first.
pub fn tool_path(root: &str, tool: Tool, windows: bool) -> (r: String)
    ensures
        r@ == tool_path_spec(root@, tool, windows),
{
    let mut s = String::from_str(root);
    s.append("/");
    match tool {
        Tool::Emulator => {
            if windows {
                s.append("emulator/emulator.exe");
            } else {
                s.append("emulator/emulator");
            }
        },
        Tool::Adb => {
            if windows {
                s.append("platform-tools/adb.exe");
            } else {
                s.append("platform-tools/adb");
            }
        },
        Tool::AvdManager => {
            if windows {
                s.append("cmdline-tools/latest/bin/avdmanager.bat");
            } else {
                s.append("cmdline-tools/latest/bin/avdmanager");
            }
        },
    }
    s
}

} // verus!
