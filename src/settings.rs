use vstd::prelude::*;
use vstd::string::StringExecFns;

verus! {

/// How the application starts when it is launched at login.
#[derive(PartialEq, Eq, Structural, Clone, Copy, Debug)]
pub enum LaunchMode {
    Restored,
    Minimized,
    MinimizedToTray,
    Maximized,
}

/// The user's settings. The window-message layer only reads the two tray
/// flags, at the moment a minimize or close arrives.
#[derive(PartialEq, Eq, Structural, Clone, Copy, Debug)]
pub struct Settings {
    pub close_to_tray: bool,
    pub minimize_to_tray: bool,
    pub launch_on_login: bool,
    pub launch_mode: LaunchMode,
}

/// The settings of a fresh installation: closing hides to the tray,
/// minimizing is left to the system, no launch at login.
pub open spec fn spec_default_settings() -> Settings {
    Settings {
        close_to_tray: true,
        minimize_to_tray: false,
        launch_on_login: false,
        launch_mode: LaunchMode::Restored,
    }
}

impl Default for Settings {
    fn default() -> (r: Settings)
        ensures
            r == spec_default_settings(),
    {
        Settings {
            close_to_tray: true,
            minimize_to_tray: false,
            launch_on_login: false,
            launch_mode: LaunchMode::Restored,
        }
    }
}

/// The command-line flag that starts the application in `mode`.
pub open spec fn spec_launch_flag(mode: LaunchMode) -> Seq<char> {
    match mode {
        LaunchMode::Restored => ""@,
        LaunchMode::Minimized => " --minimized"@,
        LaunchMode::MinimizedToTray => " --minimized-to-tray"@,
        LaunchMode::Maximized => " --maximized"@,
    }
}

pub fn launch_flag(mode: LaunchMode) -> (r: &'static str)
    ensures
        r@ == spec_launch_flag(mode),
{
    match mode {
        LaunchMode::Restored => "",
        LaunchMode::Minimized => " --minimized",
        LaunchMode::MinimizedToTray => " --minimized-to-tray",
        LaunchMode::Maximized => " --maximized",
    }
}

/// The command registered to run at login: the quoted executable path,
/// followed by the flag of the launch mode.
pub fn autostart_command(exe_path: &str, mode: LaunchMode) -> (r: String)
    ensures
        r@ == "\""@ + exe_path@ + "\""@ + spec_launch_flag(mode),
{
    let mut command = String::from_str("\"");
    command.append(exe_path);
    command.append("\"");
    command.append(launch_flag(mode));
    command
}

/// The titlebar colours (background, text) of a theme; an unknown theme
/// gets the dark colours.
pub open spec fn spec_theme_colors(theme: Seq<char>) -> (&'static str, &'static str) {
    if theme == "light"@ {
        ("#FFFFFF", "#242424")
    } else {
        ("#181818", "#ffffff")
    }
}

pub fn theme_colors(theme: &String) -> (r: (&'static str, &'static str))
    ensures
        r == spec_theme_colors(theme@),
{
    let light = String::from_str("light");
    if *theme == light {
        ("#FFFFFF", "#242424")
    } else {
        ("#181818", "#ffffff")
    }
}

/// The state the application shell shares between its commands.
pub struct AppState {
    pub settings: Settings,
}

impl AppState {
    pub fn new(settings: Settings) -> (r: AppState)
        ensures
            r.settings == settings,
    {
        AppState { settings }
    }
}

} // verus!
