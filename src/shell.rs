use vstd::prelude::*;
use crate::icons::IconCache;
use crate::message::{WM_SYSCOMMAND, spec_is_minimize};
use crate::settings::Settings;
use crate::subclass::ProcRestore;
use crate::thumbar::{Thumbar, cleanup_thumbar};
use crate::window_manager::{HookOutcome, WindowManager, remove_minimize_hook, spec_minimize_hook, DEFAULT_MINIMIZE_TO_TRAY};

verus! {

/// The setting assumed when the settings cannot be read at once: closing
/// hides to the tray, so a busy lock never ends the process.
pub const DEFAULT_CLOSE_TO_TRAY: bool = true;

/// The two tray flags, read fresh when a minimize or close arrives, so a
/// change of settings holds from the very next event.
#[derive(PartialEq, Eq, Structural, Clone, Copy, Debug)]
pub struct PolicyFlags {
    pub minimize_to_tray: bool,
    pub close_to_tray: bool,
}

/// The flags of `settings`, or the defaults when they could not be read.
pub open spec fn spec_policy_flags(settings: Option<Settings>) -> PolicyFlags {
    match settings {
        Some(s) => PolicyFlags { minimize_to_tray: s.minimize_to_tray, close_to_tray: s.close_to_tray },
        None => PolicyFlags {
            minimize_to_tray: DEFAULT_MINIMIZE_TO_TRAY,
            close_to_tray: DEFAULT_CLOSE_TO_TRAY,
        },
    }
}

pub fn policy_flags(settings: Option<Settings>) -> (r: PolicyFlags)
    ensures
        r == spec_policy_flags(settings),
{
    match settings {
        Some(s) => PolicyFlags { minimize_to_tray: s.minimize_to_tray, close_to_tray: s.close_to_tray },
        None => PolicyFlags {
            minimize_to_tray: DEFAULT_MINIMIZE_TO_TRAY,
            close_to_tray: DEFAULT_CLOSE_TO_TRAY,
        },
    }
}

/// The main window as the user sees it.
#[derive(PartialEq, Eq, Structural, Clone, Copy, Debug)]
pub enum Visibility {
    Visible,
    /// Hidden to the tray.
    Hidden,
    /// Minimized by the system.
    Minimized,
    /// The process has released its native resources and ends.
    Exited,
}

/// What happens to the main window.
#[derive(PartialEq, Eq, Structural, Clone, Copy, Debug)]
pub enum ShellEvent {
    /// The system "minimize" command.
    Minimize,
    /// A request to close the window.
    Close,
    /// "Show" from the tray menu or a click on the tray icon.
    Show,
}

/// The result of one event: the new visibility, whether native resources
/// are released (the process then ends), and whether the window handle and
/// the toolbar are published again, since hiding and restoring may have
/// invalidated what depends on the handle.
#[derive(PartialEq, Eq, Structural, Clone, Copy, Debug)]
pub struct Transition {
    pub next: Visibility,
    pub teardown: bool,
    pub republish: bool,
}

pub open spec fn spec_transition(current: Visibility, event: ShellEvent, flags: PolicyFlags) -> Transition {
    if current == Visibility::Exited {
        Transition { next: Visibility::Exited, teardown: false, republish: false }
    } else {
        match event {
            ShellEvent::Minimize => if current == Visibility::Visible {
                Transition {
                    next: if flags.minimize_to_tray { Visibility::Hidden } else { Visibility::Minimized },
                    teardown: false,
                    republish: false,
                }
            } else {
                Transition { next: current, teardown: false, republish: false }
            },
            ShellEvent::Close => if flags.close_to_tray {
                Transition { next: Visibility::Hidden, teardown: false, republish: false }
            } else {
                Transition { next: Visibility::Exited, teardown: true, republish: false }
            },
            ShellEvent::Show => Transition { next: Visibility::Visible, teardown: false, republish: true },
        }
    }
}

/// The window's next state after `event`.
pub fn window_transition(current: Visibility, event: ShellEvent, flags: PolicyFlags) -> (r: Transition)
    ensures
        r == spec_transition(current, event, flags),
{
    if current == Visibility::Exited {
        return Transition { next: Visibility::Exited, teardown: false, republish: false };
    }
    match event {
        ShellEvent::Minimize => if current == Visibility::Visible {
            Transition {
                next: if flags.minimize_to_tray { Visibility::Hidden } else { Visibility::Minimized },
                teardown: false,
                republish: false,
            }
        } else {
            Transition { next: current, teardown: false, republish: false }
        },
        ShellEvent::Close => if flags.close_to_tray {
            Transition { next: Visibility::Hidden, teardown: false, republish: false }
        } else {
            Transition { next: Visibility::Exited, teardown: true, republish: false }
        },
        ShellEvent::Show => Transition { next: Visibility::Visible, teardown: false, republish: true },
    }
}

/// The native work of shutting down: window procedures to write back, in
/// order (the toolbar's router first, as it was installed last), and icon
/// handles to release.
pub struct Teardown {
    pub restores: Vec<ProcRestore>,
    pub release: Vec<usize>,
}

pub open spec fn option_seq(r: Option<ProcRestore>) -> Seq<ProcRestore> {
    match r {
        Some(x) => seq![x],
        None => seq![],
    }
}

/// The procedures that shutting down writes back.
pub open spec fn spec_teardown_restores(t: Thumbar, wm: WindowManager) -> Seq<ProcRestore> {
    option_seq(t.subclass.restore_for(t.hwnd.usable())) + option_seq(
        wm.subclass.restore_for(wm.hwnd.usable()),
    )
}

/// Removes both window-procedure replacements and releases the icons.
pub fn release_native(t: &mut Thumbar, wm: &WindowManager) -> (r: Teardown)
    ensures
        r.restores@ == spec_teardown_restores(*old(t), *wm),
        r.release@ == old(t).icons.live(),
        final(t).icons == IconCache::Released,
        final(t).hwnd == old(t).hwnd,
        final(t).subclass == old(t).subclass,
        final(t).policy == old(t).policy,
{
    let cleanup = cleanup_thumbar(t);
    let mut restores: Vec<ProcRestore> = Vec::new();
    match cleanup.restore {
        Some(x) => restores.push(x),
        None => {},
    }
    match remove_minimize_hook(wm) {
        Some(x) => restores.push(x),
        None => {},
    }
    assert(restores@ =~= spec_teardown_restores(*old(t), *wm));
    Teardown { restores, release: cleanup.release }
}

/// What a close request comes to.
pub enum CloseOutcome {
    /// The close is suppressed and the window hidden; the process runs on.
    HideToTray,
    /// The native resources are released as given and the process ends.
    Exit(Teardown),
}

/// Handles a close request of the main window. `close_to_tray` is the
/// setting as read, `None` when it could not be read at once.
pub fn close_requested(t: &mut Thumbar, wm: &WindowManager, close_to_tray: Option<bool>) -> (r: CloseOutcome)
    ensures
        match r {
            CloseOutcome::HideToTray => {
                &&& (match close_to_tray {
                    Some(f) => f,
                    None => DEFAULT_CLOSE_TO_TRAY,
                })
                &&& *final(t) == *old(t)
            },
            CloseOutcome::Exit(td) => {
                &&& close_to_tray == Some(false)
                &&& td.restores@ == spec_teardown_restores(*old(t), *wm)
                &&& td.release@ == old(t).icons.live()
                &&& final(t).icons == IconCache::Released
                &&& final(t).subclass == old(t).subclass
                &&& final(t).hwnd == old(t).hwnd
                &&& final(t).policy == old(t).policy
            },
        },
{
    let to_tray = match close_to_tray {
        Some(f) => f,
        None => DEFAULT_CLOSE_TO_TRAY,
    };
    if to_tray {
        CloseOutcome::HideToTray
    } else {
        CloseOutcome::Exit(release_native(t, wm))
    }
}

/// With minimize-to-tray on, a minimize command is handled by hiding the
/// window, and the system's minimize never runs; with it off, the command
/// goes on down the chain and the system minimizes the window.
pub proof fn lemma_minimize_policy(wm: WindowManager, hwnd: isize, wparam: usize, flags: PolicyFlags)
    requires
        spec_is_minimize(WM_SYSCOMMAND, wparam),
    ensures
        flags.minimize_to_tray ==> spec_minimize_hook(wm, hwnd, WM_SYSCOMMAND, wparam, Some(flags.minimize_to_tray))
            == HookOutcome::HideWindow,
        flags.minimize_to_tray ==> spec_transition(Visibility::Visible, ShellEvent::Minimize, flags).next
            == Visibility::Hidden,
        !flags.minimize_to_tray ==> spec_minimize_hook(wm, hwnd, WM_SYSCOMMAND, wparam, Some(flags.minimize_to_tray)) is Forward,
        !flags.minimize_to_tray ==> spec_transition(Visibility::Visible, ShellEvent::Minimize, flags).next
            == Visibility::Minimized,
{
}

/// With close-to-tray on, a close request hides the window and the process
/// runs on; with it off, the window's state ends in teardown (what
/// `close_requested` then releases: the toolbar icons and both
/// window-procedure replacements) and the process exits.
pub proof fn lemma_close_policy(flags: PolicyFlags)
    ensures
        flags.close_to_tray ==> spec_transition(Visibility::Visible, ShellEvent::Close, flags)
            == (Transition { next: Visibility::Hidden, teardown: false, republish: false }),
        !flags.close_to_tray ==> spec_transition(Visibility::Visible, ShellEvent::Close, flags)
            == (Transition { next: Visibility::Exited, teardown: true, republish: false }),
{
}

/// The procedure window `hwnd` holds after the writes of `restores` are
/// carried out in order, starting from `current`.
pub open spec fn after_restores(current: isize, hwnd: isize, restores: Seq<ProcRestore>) -> isize
    decreases restores.len(),
{
    if restores.len() == 0 {
        current
    } else {
        after_restores(
            if restores[0].hwnd == hwnd { restores[0].procedure } else { current },
            hwnd,
            restores.drop_first(),
        )
    }
}

/// With the minimize hook installed over the window's own procedure and the
/// click router installed over the hook, shutting down writes the router's
/// previous procedure (the hook) first and the hook's (the original) last,
/// so the window ends with its own procedure, whatever it held before.
pub proof fn lemma_teardown_unwinds_chain(
    t: Thumbar,
    wm: WindowManager,
    hwnd: isize,
    original: isize,
    hook: isize,
    current: isize,
)
    requires
        t.hwnd.usable() == Some(hwnd),
        wm.hwnd.usable() == Some(hwnd),
        wm.subclass.previous_of(hwnd) == Some(original),
        t.subclass.previous_of(hwnd) == Some(hook),
    ensures
        spec_teardown_restores(t, wm) == seq![
            ProcRestore { hwnd, procedure: hook },
            ProcRestore { hwnd, procedure: original },
        ],
        after_restores(current, hwnd, spec_teardown_restores(t, wm)) == original,
{
    let rs = spec_teardown_restores(t, wm);
    assert(rs =~= seq![ProcRestore { hwnd, procedure: hook }, ProcRestore { hwnd, procedure: original }]);
    assert(rs.drop_first().drop_first() =~= Seq::<ProcRestore>::empty());
    assert(after_restores(current, hwnd, rs) == after_restores(hook, hwnd, rs.drop_first()));
    assert(after_restores(hook, hwnd, rs.drop_first()) == after_restores(
        original,
        hwnd,
        rs.drop_first().drop_first(),
    ));
}

} // verus!
