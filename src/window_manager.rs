use vstd::prelude::*;
use crate::handle::HandleSlot;
use crate::message::{is_minimize_command, spec_is_minimize};
use crate::subclass::{NextProc, ProcRestore, Subclass};

verus! {

/// The setting read when the settings cannot be read at once: the system's
/// own minimize is kept.
pub const DEFAULT_MINIMIZE_TO_TRAY: bool = false;

/// The main window's minimize hook: the window it is installed on and the
/// procedure it replaced.
pub struct WindowManager {
    pub hwnd: HandleSlot,
    pub subclass: Subclass,
}

/// What the minimize hook's window procedure does with one message.
#[derive(PartialEq, Eq, Structural, Clone, Copy, Debug)]
pub enum HookOutcome {
    /// Hide the window to the tray and report the message handled, so the
    /// system does not minimize it.
    HideWindow,
    /// Pass the message on unchanged.
    Forward(NextProc),
}

impl WindowManager {
    pub open spec fn wf(self) -> bool {
        self.subclass.wf()
    }
}

/// The hook's decision: a minimize command, with `minimize_to_tray` on,
/// hides the window; anything else goes to the next procedure.
pub open spec fn spec_minimize_hook(
    wm: WindowManager,
    hwnd: isize,
    msg: u32,
    wparam: usize,
    minimize_to_tray: Option<bool>,
) -> HookOutcome {
    if spec_is_minimize(msg, wparam) && (match minimize_to_tray {
        Some(f) => f,
        None => DEFAULT_MINIMIZE_TO_TRAY,
    }) {
        HookOutcome::HideWindow
    } else {
        HookOutcome::Forward(
            match wm.subclass.previous_of(hwnd) {
                Some(p) => NextProc::Previous(p),
                None => NextProc::Default,
            },
        )
    }
}

/// A hook with no window and nothing installed.
pub fn init_window_manager() -> (r: WindowManager)
    ensures
        r.hwnd.stored() is None,
        r.subclass.record is None,
        r.wf(),
{
    WindowManager { hwnd: HandleSlot::new(), subclass: Subclass::new() }
}

/// Stores the main window's handle, replacing the one held before.
pub fn set_main_window_hwnd(wm: &mut WindowManager, hwnd: isize)
    ensures
        final(wm).hwnd.stored() == Some(hwnd),
        final(wm).subclass == old(wm).subclass,
{
    wm.hwnd.set(hwnd);
}

/// The window to install the hook on: the stored handle when it is usable.
/// The caller swaps the procedure and reports what the swap handed back
/// with `minimize_hook_installed`.
pub fn install_minimize_hook(wm: &WindowManager) -> (r: Option<isize>)
    ensures
        r == wm.hwnd.usable(),
{
    wm.hwnd.usable_handle()
}

/// Records what the swap that installed `replacement` on `hwnd` handed
/// back; only the first capture on a window is kept.
pub fn minimize_hook_installed(wm: &mut WindowManager, hwnd: isize, replacement: isize, returned: isize)
    ensures
        final(wm).subclass == old(wm).subclass.after_install(hwnd, replacement, returned),
        final(wm).hwnd == old(wm).hwnd,
        old(wm).wf() ==> final(wm).wf(),
{
    wm.subclass.installed(hwnd, replacement, returned);
}

/// What removing the hook writes back: the captured procedure of the stored
/// window, or nothing when there is no usable window or nothing captured.
pub fn remove_minimize_hook(wm: &WindowManager) -> (r: Option<ProcRestore>)
    ensures
        r == wm.subclass.restore_for(wm.hwnd.usable()),
{
    wm.subclass.restore(wm.hwnd.usable_handle())
}

/// The hook's window procedure, for a message on `hwnd`.
/// `minimize_to_tray` is the setting as read when the message is a minimize
/// command, `None` when it could not be read; it is not looked at for any
/// other message.
pub fn minimize_hook_proc(
    wm: &WindowManager,
    hwnd: isize,
    msg: u32,
    wparam: usize,
    minimize_to_tray: Option<bool>,
) -> (r: HookOutcome)
    ensures
        r == spec_minimize_hook(*wm, hwnd, msg, wparam, minimize_to_tray),
{
    if is_minimize_command(msg, wparam) {
        let to_tray = match minimize_to_tray {
            Some(f) => f,
            None => DEFAULT_MINIMIZE_TO_TRAY,
        };
        if to_tray {
            return HookOutcome::HideWindow;
        }
    }
    HookOutcome::Forward(wm.subclass.next_proc(hwnd))
}

} // verus!
