use vstd::prelude::*;
use crate::handle::HandleSlot;
use crate::icons::{IconCache, IconLoad, cleanup_icons};
use crate::message::ThumbButton;
use crate::router::{ClickPolicy, RouteOutcome, route_message};
use crate::subclass::{ProcRestore, Subclass};

verus! {

/// Mask bit: the descriptor sets the button's icon.
pub const THB_ICON: u32 = 0x2;
/// Mask bit: the descriptor sets the button's tooltip.
pub const THB_TOOLTIP: u32 = 0x4;
/// Mask bit: the descriptor sets the button's flags.
pub const THB_FLAGS: u32 = 0x8;
/// The fields every published descriptor sets.
pub const BUTTON_MASK: u32 = THB_ICON | THB_TOOLTIP | THB_FLAGS;
/// Button flags: enabled, not a toggle.
pub const BUTTON_FLAGS: u32 = 0;

/// The tooltip of the "previous" button.
pub const PREV_TOOLTIP: &'static str = "Prev";
/// The tooltip of the "play/pause" button.
pub const PLAY_PAUSE_TOOLTIP: &'static str = "Play-Pause";
/// The tooltip of the "next" button.
pub const NEXT_TOOLTIP: &'static str = "Next";

/// The taskbar thumbnail toolbar of the main window: the window it belongs
/// to, the icons it shows, the subclass that routes its clicks, and how
/// clicks are passed on.
pub struct Thumbar {
    pub hwnd: HandleSlot,
    pub icons: IconCache,
    pub subclass: Subclass,
    pub policy: ClickPolicy,
}

/// One button as it is submitted to the taskbar.
#[derive(Clone, Copy, Debug)]
pub struct ButtonDescriptor {
    pub id: u32,
    pub icon: usize,
    pub tooltip: &'static str,
    pub mask: u32,
    pub flags: u32,
}

/// The buttons to submit to the taskbar for one window.
pub struct ThumbBarUpdate {
    pub hwnd: isize,
    pub buttons: Vec<ButtonDescriptor>,
}

/// One piece of native work that adding the toolbar takes, in order.
#[derive(PartialEq, Eq, Structural, Clone, Copy, Debug)]
pub enum ThumbarStep {
    /// Find and load the three icon files and hand them to `load_icons`.
    LoadIcons,
    /// Install the click router on the window (see `register_subclass`).
    RegisterSubclass,
    /// Submit the buttons (see `add_thumb_buttons_native`).
    PublishButtons,
}

/// What tearing the toolbar down writes back and releases.
pub struct ThumbarCleanup {
    pub restore: Option<ProcRestore>,
    pub release: Vec<usize>,
}

pub open spec fn spec_tooltip(b: ThumbButton) -> &'static str {
    match b {
        ThumbButton::Prev => PREV_TOOLTIP,
        ThumbButton::PlayPause => PLAY_PAUSE_TOOLTIP,
        ThumbButton::Next => NEXT_TOOLTIP,
    }
}

/// The descriptor of button `b` with the icon the cache holds for it.
pub open spec fn spec_descriptor(icons: IconCache, b: ThumbButton) -> ButtonDescriptor {
    ButtonDescriptor {
        id: b.spec_id(),
        icon: icons.spec_icon(b),
        tooltip: spec_tooltip(b),
        mask: BUTTON_MASK,
        flags: BUTTON_FLAGS,
    }
}

/// The three descriptors, in toolbar order.
pub open spec fn spec_descriptors(icons: IconCache) -> Seq<ButtonDescriptor> {
    seq![
        spec_descriptor(icons, ThumbButton::Prev),
        spec_descriptor(icons, ThumbButton::PlayPause),
        spec_descriptor(icons, ThumbButton::Next),
    ]
}

impl Thumbar {
    pub open spec fn wf(self) -> bool {
        self.subclass.wf()
    }

    /// The native work that adding the toolbar takes: the icons when they
    /// were never loaded, then, on a usable window only, the subclass and
    /// the buttons.
    pub open spec fn spec_add_steps(self) -> Seq<ThumbarStep> {
        (if self.icons == IconCache::Unloaded {
            seq![ThumbarStep::LoadIcons]
        } else {
            seq![]
        }) + (if self.hwnd.usable() is Some {
            seq![ThumbarStep::RegisterSubclass, ThumbarStep::PublishButtons]
        } else {
            seq![]
        })
    }
}

/// A toolbar with no window, no icons and nothing installed.
pub fn init_thumbar(policy: ClickPolicy) -> (r: Thumbar)
    ensures
        r.hwnd.stored() is None,
        r.icons == IconCache::Unloaded,
        r.subclass.record is None,
        r.policy == policy,
        r.wf(),
{
    Thumbar { hwnd: HandleSlot::new(), icons: IconCache::new(), subclass: Subclass::new(), policy }
}

/// Stores the window handle, replacing the one held before.
pub fn set_stored_hwnd(t: &mut Thumbar, hwnd: isize)
    ensures
        final(t).hwnd.stored() == Some(hwnd),
        final(t).icons == old(t).icons,
        final(t).subclass == old(t).subclass,
        final(t).policy == old(t).policy,
{
    t.hwnd.set(hwnd);
}

/// The native work that adding the toolbar takes, in order. Calling it
/// again after every show is safe: the icons are loaded once, the subclass
/// keeps the procedure it first captured, and the buttons are resubmitted
/// as they were.
pub fn add_thumb_buttons(t: &Thumbar) -> (r: Vec<ThumbarStep>)
    ensures
        r@ == t.spec_add_steps(),
{
    let mut r: Vec<ThumbarStep> = Vec::new();
    if t.icons.needs_loading() {
        r.push(ThumbarStep::LoadIcons);
    }
    if t.hwnd.usable_handle().is_some() {
        r.push(ThumbarStep::RegisterSubclass);
        r.push(ThumbarStep::PublishButtons);
    }
    assert(r@ =~= t.spec_add_steps());
    r
}

/// Stores three icon loads in the toolbar's cache; returns the handles to
/// release at once (see `icons::load_icons`).
pub fn load_icons(t: &mut Thumbar, loads: [IconLoad; 3]) -> (release: Vec<usize>)
    ensures
        final(t).icons == old(t).icons.after_load(loads@),
        release@ == (if old(t).icons == IconCache::Unloaded {
            crate::icons::settled_releases(loads@)
        } else {
            crate::icons::all_allocated(loads@)
        }),
        final(t).hwnd == old(t).hwnd,
        final(t).subclass == old(t).subclass,
        final(t).policy == old(t).policy,
{
    crate::icons::load_icons(&mut t.icons, loads)
}

/// The window to install the click router on: the stored handle when it is
/// usable. The caller swaps the procedure and reports what the swap handed
/// back with `subclass_installed`.
pub fn register_subclass(t: &Thumbar) -> (r: Option<isize>)
    ensures
        r == t.hwnd.usable(),
{
    t.hwnd.usable_handle()
}

/// Records what the swap that installed `replacement` on `hwnd` handed
/// back; only the first capture on a window is kept.
pub fn subclass_installed(t: &mut Thumbar, hwnd: isize, replacement: isize, returned: isize)
    ensures
        final(t).subclass == old(t).subclass.after_install(hwnd, replacement, returned),
        final(t).hwnd == old(t).hwnd,
        final(t).icons == old(t).icons,
        final(t).policy == old(t).policy,
        old(t).wf() ==> final(t).wf(),
{
    t.subclass.installed(hwnd, replacement, returned);
}

/// What removing the click router writes back: the captured procedure of
/// the stored window, or nothing when there is no usable window or nothing
/// was captured for it.
pub fn remove_subclass(t: &Thumbar) -> (r: Option<ProcRestore>)
    ensures
        r == t.subclass.restore_for(t.hwnd.usable()),
{
    t.subclass.restore(t.hwnd.usable_handle())
}

/// Removing the toolbar removes its click router.
pub fn remove_thumb_buttons(t: &Thumbar) -> (r: Option<ProcRestore>)
    ensures
        r == t.subclass.restore_for(t.hwnd.usable()),
{
    remove_subclass(t)
}

/// Tears the toolbar down: removes the click router and releases the icons,
/// each at most once.
pub fn cleanup_thumbar(t: &mut Thumbar) -> (r: ThumbarCleanup)
    ensures
        r.restore == old(t).subclass.restore_for(old(t).hwnd.usable()),
        r.release@ == old(t).icons.live(),
        final(t).icons == IconCache::Released,
        final(t).hwnd == old(t).hwnd,
        final(t).subclass == old(t).subclass,
        final(t).policy == old(t).policy,
{
    let restore = remove_subclass(t);
    let release = cleanup_icons(&mut t.icons);
    ThumbarCleanup { restore, release }
}

fn descriptor(icons: &IconCache, b: ThumbButton) -> (r: ButtonDescriptor)
    ensures
        r == spec_descriptor(*icons, b),
{
    let tooltip = match b {
        ThumbButton::Prev => PREV_TOOLTIP,
        ThumbButton::PlayPause => PLAY_PAUSE_TOOLTIP,
        ThumbButton::Next => NEXT_TOOLTIP,
    };
    ButtonDescriptor { id: b.id(), icon: icons.icon(b), tooltip, mask: BUTTON_MASK, flags: BUTTON_FLAGS }
}

/// The buttons to submit for the stored window: ids 100 to 102 in order,
/// the cached icons (zero where absent), fixed tooltips, always enabled.
/// Nothing when there is no usable window.
pub fn add_thumb_buttons_native(t: &Thumbar) -> (r: Option<ThumbBarUpdate>)
    ensures
        match r {
            Some(u) => t.hwnd.usable() == Some(u.hwnd) && u.buttons@ == spec_descriptors(t.icons),
            None => t.hwnd.usable() is None,
        },
{
    match t.hwnd.usable_handle() {
        Some(hwnd) => {
            let mut buttons: Vec<ButtonDescriptor> = Vec::new();
            buttons.push(descriptor(&t.icons, ThumbButton::Prev));
            buttons.push(descriptor(&t.icons, ThumbButton::PlayPause));
            buttons.push(descriptor(&t.icons, ThumbButton::Next));
            assert(buttons@ =~= spec_descriptors(t.icons));
            Some(ThumbBarUpdate { hwnd, buttons })
        },
        None => None,
    }
}

/// The click router's window procedure, for a message on `hwnd`.
pub fn thumb_proc(t: &Thumbar, hwnd: isize, msg: u32, wparam: usize) -> (r: RouteOutcome)
    ensures
        r == (match crate::message::spec_thumb_click(msg, wparam) {
            Some(b) => RouteOutcome::Click(crate::router::spec_dispatch(t.policy, b)),
            None => RouteOutcome::Forward(
                match t.subclass.previous_of(hwnd) {
                    Some(p) => crate::subclass::NextProc::Previous(p),
                    None => crate::subclass::NextProc::Default,
                },
            ),
        }),
{
    route_message(&t.subclass, t.policy, hwnd, msg, wparam)
}

/// The toolbar after one show cycle: the window handle `hwnd` is stored
/// again and the toolbar added, where `loads` are the icon loads (used only
/// while the icons were never loaded) and `returned` is what the swap that
/// installed `replacement` handed back (used only on a usable window).
pub open spec fn after_show(
    t: Thumbar,
    replacement: isize,
    hwnd: isize,
    loads: Seq<IconLoad>,
    returned: isize,
) -> Thumbar {
    Thumbar {
        hwnd: HandleSlot { current: Some(hwnd) },
        icons: t.icons.after_load(loads),
        subclass: if hwnd != 0 {
            t.subclass.after_install(hwnd, replacement, returned)
        } else {
            t.subclass
        },
        policy: t.policy,
    }
}

/// The toolbar after a sequence of show cycles.
pub open spec fn after_shows(t: Thumbar, replacement: isize, cycles: Seq<(isize, Seq<IconLoad>, isize)>) -> Thumbar
    decreases cycles.len(),
{
    if cycles.len() == 0 {
        t
    } else {
        after_shows(
            after_show(t, replacement, cycles[0].0, cycles[0].1, cycles[0].2),
            replacement,
            cycles.drop_first(),
        )
    }
}

/// However many show, hide and restore cycles add the toolbar again, and
/// whatever window handles they bring, the icons are the ones the first
/// cycle loaded: at most three handles are ever held.
pub proof fn lemma_show_cycles_keep_icons(
    t: Thumbar,
    replacement: isize,
    cycles: Seq<(isize, Seq<IconLoad>, isize)>,
)
    requires
        cycles.len() > 0,
    ensures
        after_shows(t, replacement, cycles).icons == t.icons.after_load(cycles[0].1),
        after_shows(t, replacement, cycles).icons.live().len() <= 3,
    decreases cycles.len(),
{
    let t1 = after_show(t, replacement, cycles[0].0, cycles[0].1, cycles[0].2);
    crate::icons::lemma_live_icons_bounded(t.icons.after_load(cycles[0].1));
    assert(after_shows(t, replacement, cycles) == after_shows(t1, replacement, cycles.drop_first()));
    if cycles.len() == 1 {
        assert(after_shows(t1, replacement, cycles.drop_first()) == t1);
    } else {
        let rest = cycles.drop_first();
        lemma_show_cycles_keep_icons(t1, replacement, rest);
        crate::icons::lemma_load_icons_idempotent(t.icons, cycles[0].1, rest[0].1);
    }
}

} // verus!
