//! The settings record and the choice of SDK root.  The embedding
//! application owns storage and the process environment; this module only
//! computes, from a stored record and an environment snapshot, what the
//! operations see.

use vstd::prelude::*;

verus! {

/// User settings.  Only `android_home` matters to the device operations;
/// the other fields ride along for the embedder's user interface.
#[derive(Debug, Clone)]
pub struct Settings {
    pub language: String,
    pub theme: String,
    pub auto_start: bool,
    pub minimize_to_tray: bool,
    pub close_to_minimize: bool,
    pub android_home: String,
    pub deveco_home: String,
    pub xcode_home: String,
}

impl Default for Settings {
    /// The out-of-the-box settings record.
    fn default() -> (r: Self)
        ensures
            r.language@ == "zh-CN"@,
            r.theme@ == "system"@,
            !r.auto_start,
            r.minimize_to_tray,
            r.close_to_minimize,
            r.android_home@ == Seq::<char>::empty(),
            r.deveco_home@ == Seq::<char>::empty(),
            r.xcode_home@ == Seq::<char>::empty(),
    {
        Settings {
            language: String::from_str("zh-CN"),
            theme: String::from_str("system"),
            auto_start: false,
            minimize_to_tray: true,
            close_to_minimize: true,
            android_home: String::new(),
            deveco_home: String::new(),
            xcode_home: String::new(),
        }
    }
}

/// Chooses the SDK root: the stored value when set, else the first
/// environment fallback, else the second, else nothing.
pub fn get_android_home(
    settings: &Settings,
    env_android_home: Option<String>,
    env_sdk_root: Option<String>,
) -> (r: Option<String>)
    ensures
        settings.android_home@.len() > 0 ==> (match r {
            Some(h) => h@ == settings.android_home@,
            None => false,
        }),
        settings.android_home@.len() == 0 ==> r == (match env_android_home {
            Some(h) => Some(h),
            None => env_sdk_root,
        }),
{
    if !settings.android_home.as_str().is_empty() {
        Some(settings.android_home.clone())
    } else {
        match env_android_home {
            Some(h) => Some(h),
            None => env_sdk_root,
        }
    }
}

/// The settings as handed to a caller: fields left empty in the stored
/// record are filled from the environment snapshot, and on a macOS host
/// the developer directory falls back to its conventional location.
pub fn get_settings(
    stored: &Settings,
    env_android_home: Option<String>,
    env_sdk_root: Option<String>,
    env_deveco_home: Option<String>,
    env_developer_dir: Option<String>,
    macos: bool,
) -> (r: Settings)
    ensures
        r.language@ == stored.language@,
        r.theme@ == stored.theme@,
        r.auto_start == stored.auto_start,
        r.minimize_to_tray == stored.minimize_to_tray,
        r.close_to_minimize == stored.close_to_minimize,
        stored.android_home@.len() > 0 ==> r.android_home@ == stored.android_home@,
        stored.android_home@.len() == 0 ==> r.android_home@ == (match (
            env_android_home,
            env_sdk_root,
        ) {
            (Some(h), _) => h@,
            (None, Some(h)) => h@,
            (None, None) => stored.android_home@,
        }),
        stored.deveco_home@.len() > 0 ==> r.deveco_home@ == stored.deveco_home@,
        stored.deveco_home@.len() == 0 ==> r.deveco_home@ == (match env_deveco_home {
            Some(h) => h@,
            None => stored.deveco_home@,
        }),
        macos && stored.xcode_home@.len() == 0 ==> r.xcode_home@ == (match env_developer_dir {
            Some(h) => h@,
            None => "/Applications/Xcode.app/Contents/Developer"@,
        }),
        !(macos && stored.xcode_home@.len() == 0) ==> r.xcode_home@ == stored.xcode_home@,
{
    let android_home = if !stored.android_home.as_str().is_empty() {
        stored.android_home.clone()
    } else {
        match env_android_home {
            Some(h) => h,
            None => match env_sdk_root {
                Some(h) => h,
                None => stored.android_home.clone(),
            },
        }
    };
    let deveco_home = if stored.deveco_home.as_str().is_empty() {
        match env_deveco_home {
            Some(h) => h,
            None => stored.deveco_home.clone(),
        }
    } else {
        stored.deveco_home.clone()
    };
    let xcode_home = if macos && stored.xcode_home.as_str().is_empty() {
        match env_developer_dir {
            Some(h) => h,
            None => String::from_str("/Applications/Xcode.app/Contents/Developer"),
        }
    } else {
        stored.xcode_home.clone()
    };
    Settings {
        language: stored.language.clone(),
        theme: stored.theme.clone(),
        auto_start: stored.auto_start,
        minimize_to_tray: stored.minimize_to_tray,
        close_to_minimize: stored.close_to_minimize,
        android_home,
        deveco_home,
        xcode_home,
    }
}

} // verus!
