use qobuz_player::icons::{IconCache, IconLoad};
use qobuz_player::message::{SC_MINIMIZE, WM_COMMAND, WM_SYSCOMMAND};
use qobuz_player::router::ClickPolicy;
use qobuz_player::settings::{
    autostart_command, launch_flag, theme_colors, AppState, LaunchMode, Settings,
};
use qobuz_player::shell::{
    close_requested, policy_flags, release_native, window_transition, CloseOutcome, PolicyFlags,
    ShellEvent, Transition, Visibility,
};
use qobuz_player::subclass::{NextProc, ProcRestore};
use qobuz_player::thumbar::{init_thumbar, load_icons, set_stored_hwnd, subclass_installed, Thumbar};
use qobuz_player::window_manager::{
    init_window_manager, install_minimize_hook, minimize_hook_installed, minimize_hook_proc,
    remove_minimize_hook, set_main_window_hwnd, HookOutcome, WindowManager,
};

fn flags(minimize_to_tray: bool, close_to_tray: bool) -> PolicyFlags {
    PolicyFlags { minimize_to_tray, close_to_tray }
}

fn installed_pair() -> (Thumbar, WindowManager) {
    let mut wm = init_window_manager();
    set_main_window_hwnd(&mut wm, 42);
    let h = install_minimize_hook(&wm).unwrap();
    minimize_hook_installed(&mut wm, h, 0x5000, 0x1000);
    let mut t = init_thumbar(ClickPolicy::MediaKey);
    set_stored_hwnd(&mut t, 42);
    load_icons(&mut t, [IconLoad::Found { full: 1, small: 2 }, IconLoad::Missing, IconLoad::Found { full: 3, small: 0 }]);
    // the router goes on top of the hook
    subclass_installed(&mut t, 42, 0x6000, 0x5000);
    (t, wm)
}

#[test]
fn hook_needs_a_usable_window() {
    let mut wm = init_window_manager();
    assert_eq!(install_minimize_hook(&wm), None);
    assert_eq!(remove_minimize_hook(&wm), None);
    set_main_window_hwnd(&mut wm, 0);
    assert_eq!(install_minimize_hook(&wm), None);
    set_main_window_hwnd(&mut wm, 42);
    assert_eq!(install_minimize_hook(&wm), Some(42));
    assert_eq!(remove_minimize_hook(&wm), None);
}

#[test]
fn minimize_to_tray_hides_and_consumes() {
    let (_, wm) = installed_pair();
    assert_eq!(minimize_hook_proc(&wm, 42, WM_SYSCOMMAND, SC_MINIMIZE, Some(true)), HookOutcome::HideWindow);
    assert_eq!(window_transition(Visibility::Visible, ShellEvent::Minimize, flags(true, true)).next, Visibility::Hidden);
}

#[test]
fn minimize_without_tray_goes_to_the_system() {
    let (_, wm) = installed_pair();
    assert_eq!(
        minimize_hook_proc(&wm, 42, WM_SYSCOMMAND, SC_MINIMIZE, Some(false)),
        HookOutcome::Forward(NextProc::Previous(0x1000))
    );
    // an unreadable setting keeps the system's minimize
    assert_eq!(
        minimize_hook_proc(&wm, 42, WM_SYSCOMMAND, SC_MINIMIZE, None),
        HookOutcome::Forward(NextProc::Previous(0x1000))
    );
    assert_eq!(window_transition(Visibility::Visible, ShellEvent::Minimize, flags(false, true)).next, Visibility::Minimized);
}

#[test]
fn other_messages_pass_the_hook() {
    let (_, wm) = installed_pair();
    assert_eq!(
        minimize_hook_proc(&wm, 42, WM_SYSCOMMAND, 0xF030, Some(true)),
        HookOutcome::Forward(NextProc::Previous(0x1000))
    );
    assert_eq!(
        minimize_hook_proc(&wm, 42, WM_COMMAND, SC_MINIMIZE, Some(true)),
        HookOutcome::Forward(NextProc::Previous(0x1000))
    );
    let fresh = init_window_manager();
    assert_eq!(minimize_hook_proc(&fresh, 42, WM_COMMAND, 0, None), HookOutcome::Forward(NextProc::Default));
}

#[test]
fn close_to_tray_hides_and_runs_on() {
    let (mut t, wm) = installed_pair();
    assert!(matches!(close_requested(&mut t, &wm, Some(true)), CloseOutcome::HideToTray));
    assert!(matches!(close_requested(&mut t, &wm, None), CloseOutcome::HideToTray));
    assert!(!t.icons.needs_loading());
    assert_ne!(t.icons, IconCache::Released);
    assert_eq!(
        window_transition(Visibility::Visible, ShellEvent::Close, flags(false, true)),
        Transition { next: Visibility::Hidden, teardown: false, republish: false }
    );
}

#[test]
fn close_without_tray_releases_everything() {
    let (mut t, wm) = installed_pair();
    match close_requested(&mut t, &wm, Some(false)) {
        CloseOutcome::Exit(td) => {
            assert_eq!(
                td.restores,
                vec![
                    ProcRestore { hwnd: 42, procedure: 0x5000 },
                    ProcRestore { hwnd: 42, procedure: 0x1000 }
                ]
            );
            assert_eq!(td.release, vec![2, 3]);
        }
        CloseOutcome::HideToTray => panic!("the close was suppressed"),
    }
    assert_eq!(t.icons, IconCache::Released);
    assert_eq!(
        window_transition(Visibility::Visible, ShellEvent::Close, flags(false, false)),
        Transition { next: Visibility::Exited, teardown: true, republish: false }
    );
}

#[test]
fn release_native_twice_releases_icons_once() {
    let (mut t, wm) = installed_pair();
    assert_eq!(release_native(&mut t, &wm).release, vec![2, 3]);
    assert!(release_native(&mut t, &wm).release.is_empty());
}

#[test]
fn show_republishes_from_hidden_and_minimized() {
    for v in [Visibility::Hidden, Visibility::Minimized, Visibility::Visible] {
        assert_eq!(
            window_transition(v, ShellEvent::Show, flags(true, true)),
            Transition { next: Visibility::Visible, teardown: false, republish: true }
        );
    }
    assert_eq!(window_transition(Visibility::Hidden, ShellEvent::Minimize, flags(true, true)).next, Visibility::Hidden);
    assert_eq!(
        window_transition(Visibility::Exited, ShellEvent::Show, flags(true, true)),
        Transition { next: Visibility::Exited, teardown: false, republish: false }
    );
}

#[test]
fn flags_default_when_settings_unreadable() {
    assert_eq!(policy_flags(None), flags(false, true));
    let s = Settings { close_to_tray: false, minimize_to_tray: true, launch_on_login: true, launch_mode: LaunchMode::Maximized };
    assert_eq!(policy_flags(Some(s)), flags(true, false));
    assert_eq!(AppState::new(s).settings, s);
}

#[test]
fn default_settings() {
    let d = Settings::default();
    assert!(d.close_to_tray);
    assert!(!d.minimize_to_tray);
    assert!(!d.launch_on_login);
    assert_eq!(d.launch_mode, LaunchMode::Restored);
}

#[test]
fn autostart_command_quotes_path_and_adds_flag() {
    assert_eq!(autostart_command("C:\\Apps\\player.exe", LaunchMode::Restored), "\"C:\\Apps\\player.exe\"");
    assert_eq!(autostart_command("C:\\p.exe", LaunchMode::Minimized), "\"C:\\p.exe\" --minimized");
    assert_eq!(autostart_command("C:\\p.exe", LaunchMode::MinimizedToTray), "\"C:\\p.exe\" --minimized-to-tray");
    assert_eq!(autostart_command("C:\\p.exe", LaunchMode::Maximized), "\"C:\\p.exe\" --maximized");
    assert_eq!(launch_flag(LaunchMode::Restored), "");
}

#[test]
fn theme_colors_fall_back_to_dark() {
    assert_eq!(theme_colors(&"light".to_string()), ("#FFFFFF", "#242424"));
    assert_eq!(theme_colors(&"dark".to_string()), ("#181818", "#ffffff"));
    assert_eq!(theme_colors(&"solarized".to_string()), ("#181818", "#ffffff"));
}
