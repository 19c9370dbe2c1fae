use vstd::prelude::*;
use crate::message::ThumbButton;

verus! {

/// The three icon handles of the toolbar, in toolbar order. Zero marks an
/// icon that could not be found or loaded; its button is drawn blank.
#[derive(PartialEq, Eq, Structural, Clone, Copy, Debug)]
pub struct IconSet {
    pub prev: usize,
    pub play_pause: usize,
    pub next: usize,
}

impl IconSet {
    /// The handles in toolbar order.
    pub open spec fn slots(self) -> Seq<usize> {
        seq![self.prev, self.play_pause, self.next]
    }

    /// The handles that are held, in toolbar order.
    pub open spec fn live(self) -> Seq<usize> {
        self.slots().filter(|h: usize| h != 0)
    }

    /// The handle shown on button `b`.
    pub fn icon(&self, b: ThumbButton) -> (r: usize)
        ensures
            r == self.slots()[b.spec_slot()],
    {
        match b {
            ThumbButton::Prev => self.prev,
            ThumbButton::PlayPause => self.play_pause,
            ThumbButton::Next => self.next,
        }
    }
}

/// The process's icon cache. Icons are loaded at most once, and released
/// at most once; after release no icon is handed out again.
#[derive(PartialEq, Eq, Structural, Clone, Copy, Debug)]
pub enum IconCache {
    Unloaded,
    Loaded(IconSet),
    Released,
}

/// What the native loader made of one icon file.
#[derive(PartialEq, Eq, Structural, Clone, Copy, Debug)]
pub enum IconLoad {
    /// No candidate path held the file; nothing was loaded.
    Missing,
    /// The file was loaded at full size and then again at 16x16; zero marks
    /// a load that failed.
    Found { full: usize, small: usize },
}

/// What to keep of one icon load, and which handle to release at once.
#[derive(PartialEq, Eq, Structural, Clone, Copy, Debug)]
pub struct SettledIcon {
    pub keep: usize,
    pub release: Option<usize>,
}

/// The handles that one load allocated, in load order.
pub open spec fn allocated(l: IconLoad) -> Seq<usize> {
    match l {
        IconLoad::Missing => seq![],
        IconLoad::Found { full, small } => if full != 0 && small != 0 {
            seq![full, small]
        } else if full != 0 {
            seq![full]
        } else if small != 0 {
            seq![small]
        } else {
            seq![]
        },
    }
}

/// The handles that one load allocated, as a set.
pub open spec fn handles(l: IconLoad) -> Set<usize> {
    match l {
        IconLoad::Missing => Set::empty(),
        IconLoad::Found { full, small } => Set::empty().insert(full).insert(small).remove(0),
    }
}

/// The small bitmap is sharper on a thumbnail button, so it replaces the
/// full-size one when both loaded; a lone handle is kept as it is.
pub open spec fn spec_settle(l: IconLoad) -> SettledIcon {
    match l {
        IconLoad::Missing => SettledIcon { keep: 0, release: None },
        IconLoad::Found { full, small } => if full == 0 {
            SettledIcon { keep: 0, release: if small != 0 { Some(small) } else { None } }
        } else if small == 0 || small == full {
            SettledIcon { keep: full, release: None }
        } else {
            SettledIcon { keep: small, release: Some(full) }
        },
    }
}

/// The released handle, as a sequence of zero or one.
pub open spec fn released(s: SettledIcon) -> Seq<usize> {
    match s.release {
        Some(h) => seq![h],
        None => seq![],
    }
}

/// The icon set that three loads settle into.
pub open spec fn settled_set(loads: Seq<IconLoad>) -> IconSet {
    IconSet {
        prev: spec_settle(loads[0]).keep,
        play_pause: spec_settle(loads[1]).keep,
        next: spec_settle(loads[2]).keep,
    }
}

/// The handles to release when three loads are stored in an unloaded cache.
pub open spec fn settled_releases(loads: Seq<IconLoad>) -> Seq<usize> {
    released(spec_settle(loads[0])) + released(spec_settle(loads[1])) + released(
        spec_settle(loads[2]),
    )
}

/// Every handle that three loads allocated.
pub open spec fn all_allocated(loads: Seq<IconLoad>) -> Seq<usize> {
    allocated(loads[0]) + allocated(loads[1]) + allocated(loads[2])
}

impl IconCache {
    /// The cache after three loads are offered to it.
    pub open spec fn after_load(self, loads: Seq<IconLoad>) -> IconCache {
        match self {
            IconCache::Unloaded => IconCache::Loaded(settled_set(loads)),
            _ => self,
        }
    }

    /// The handles the cache holds.
    pub open spec fn live(self) -> Seq<usize> {
        match self {
            IconCache::Loaded(set) => set.live(),
            _ => seq![],
        }
    }

    /// The handle shown on button `b`: zero when nothing is loaded.
    pub open spec fn spec_icon(self, b: ThumbButton) -> usize {
        match self {
            IconCache::Loaded(set) => set.slots()[b.spec_slot()],
            _ => 0,
        }
    }

    pub fn new() -> (r: IconCache)
        ensures
            r == IconCache::Unloaded,
    {
        IconCache::Unloaded
    }

    /// Whether the icons still have to be loaded. Once they were, the files
    /// and the native allocator are never touched again.
    pub fn needs_loading(&self) -> (r: bool)
        ensures
            r == (*self == IconCache::Unloaded),
    {
        match self {
            IconCache::Unloaded => true,
            _ => false,
        }
    }

    /// The handle shown on button `b`: zero when nothing is loaded.
    pub fn icon(&self, b: ThumbButton) -> (r: usize)
        ensures
            r == self.spec_icon(b),
    {
        match self {
            IconCache::Loaded(set) => set.icon(b),
            _ => 0,
        }
    }
}

/// Settles one icon load.
pub fn settle_icon(l: IconLoad) -> (r: SettledIcon)
    ensures
        r == spec_settle(l),
        r.release != Some(r.keep),
        r.release != Some(0usize),
        Set::empty().insert(r.keep).remove(0) + (match r.release {
            Some(h) => Set::empty().insert(h),
            None => Set::empty(),
        }) == handles(l),
{
    let r = match l {
        IconLoad::Missing => SettledIcon { keep: 0, release: None },
        IconLoad::Found { full, small } => if full == 0 {
            SettledIcon { keep: 0, release: if small != 0 { Some(small) } else { None } }
        } else if small == 0 || small == full {
            SettledIcon { keep: full, release: None }
        } else {
            SettledIcon { keep: small, release: Some(full) }
        },
    };
    assert(Set::empty().insert(r.keep).remove(0) + (match r.release {
        Some(h) => Set::empty().insert(h),
        None => Set::empty(),
    }) =~= handles(l));
    r
}

fn push_release(out: &mut Vec<usize>, s: SettledIcon)
    ensures
        final(out)@ == old(out)@ + released(s),
{
    match s.release {
        Some(h) => out.push(h),
        None => {},
    }
    proof {
        assert(final(out)@ =~= old(out)@ + released(s));
    }
}

fn push_allocated(out: &mut Vec<usize>, l: IconLoad)
    ensures
        final(out)@ == old(out)@ + allocated(l),
{
    match l {
        IconLoad::Missing => {},
        IconLoad::Found { full, small } => {
            if full != 0 {
                out.push(full);
            }
            if small != 0 {
                out.push(small);
            }
        },
    }
    assert(final(out)@ =~= old(out)@ + allocated(l));
}

/// Stores the three loads if the cache was never loaded, and returns the
/// handles the caller must release at once: the full-size icons that a
/// small one replaced. A cache that already holds icons, or released them,
/// is left as it is and every handle of `loads` is returned for release.
pub fn load_icons(cache: &mut IconCache, loads: [IconLoad; 3]) -> (release: Vec<usize>)
    ensures
        *final(cache) == old(cache).after_load(loads@),
        release@ == (if *old(cache) == IconCache::Unloaded {
            settled_releases(loads@)
        } else {
            all_allocated(loads@)
        }),
{
    let mut out: Vec<usize> = Vec::new();
    if cache.needs_loading() {
        let a = settle_icon(loads[0]);
        let b = settle_icon(loads[1]);
        let c = settle_icon(loads[2]);
        push_release(&mut out, a);
        push_release(&mut out, b);
        push_release(&mut out, c);
        *cache = IconCache::Loaded(IconSet { prev: a.keep, play_pause: b.keep, next: c.keep });
    } else {
        push_allocated(&mut out, loads[0]);
        push_allocated(&mut out, loads[1]);
        push_allocated(&mut out, loads[2]);
    }
    assert(out@ =~= (if *old(cache) == IconCache::Unloaded {
        settled_releases(loads@)
    } else {
        all_allocated(loads@)
    }));
    out
}

/// Releases the cache: returns every held handle, once. A second call, or a
/// call before any load, returns nothing, and no icon is loaded afterwards.
pub fn cleanup_icons(cache: &mut IconCache) -> (release: Vec<usize>)
    ensures
        *final(cache) == IconCache::Released,
        release@ == old(cache).live(),
{
    let mut out: Vec<usize> = Vec::new();
    match *cache {
        IconCache::Loaded(set) => {
            proof {
                reveal_with_fuel(Seq::filter, 4);
            }
            if set.prev != 0 {
                out.push(set.prev);
            }
            if set.play_pause != 0 {
                out.push(set.play_pause);
            }
            if set.next != 0 {
                out.push(set.next);
            }
            assert(out@ =~= set.live());
        },
        _ => {
            assert(out@ =~= old(cache).live());
        },
    }
    *cache = IconCache::Released;
    out
}

/// Loading is idempotent: once a load was offered, the cache no longer asks
/// for loading, and a second load leaves it holding the same set.
pub proof fn lemma_load_icons_idempotent(c: IconCache, first: Seq<IconLoad>, second: Seq<IconLoad>)
    ensures
        c.after_load(first) != IconCache::Unloaded,
        c.after_load(first).after_load(second) == c.after_load(first),
{
}

/// A cache never holds more than the three toolbar icons.
pub proof fn lemma_live_icons_bounded(c: IconCache)
    ensures
        c.live().len() <= 3,
{
    match c {
        IconCache::Loaded(set) => {
            set.slots().lemma_filter_len(|h: usize| h != 0);
        },
        _ => {},
    }
}

/// A directory searched for the icon files.
#[derive(PartialEq, Eq, Structural, Clone, Copy, Debug)]
pub enum SearchDir {
    /// The packaged resource directory.
    Resources,
    /// `icons` under the packaged resource directory.
    ResourceIcons,
    /// The directory of the executable.
    Exe,
    /// `icons` next to the executable.
    ExeIcons,
    /// `resources` next to the executable.
    ExeResources,
    /// The icon directory of the development source tree (a relative path).
    SourceIcons,
}

/// The directories searched, in order: the packaged resources (when known),
/// then the executable's directory (when known), then the source tree.
pub open spec fn spec_search_dirs(has_resource_dir: bool, has_exe_dir: bool) -> Seq<SearchDir> {
    (if has_resource_dir {
        seq![SearchDir::Resources, SearchDir::ResourceIcons]
    } else {
        seq![]
    }) + (if has_exe_dir {
        seq![SearchDir::Exe, SearchDir::ExeIcons, SearchDir::ExeResources]
    } else {
        seq![]
    }) + seq![SearchDir::SourceIcons]
}

pub fn search_dirs(has_resource_dir: bool, has_exe_dir: bool) -> (r: Vec<SearchDir>)
    ensures
        r@ == spec_search_dirs(has_resource_dir, has_exe_dir),
{
    let mut r: Vec<SearchDir> = Vec::new();
    if has_resource_dir {
        r.push(SearchDir::Resources);
        r.push(SearchDir::ResourceIcons);
    }
    if has_exe_dir {
        r.push(SearchDir::Exe);
        r.push(SearchDir::ExeIcons);
        r.push(SearchDir::ExeResources);
    }
    r.push(SearchDir::SourceIcons);
    assert(r@ =~= spec_search_dirs(has_resource_dir, has_exe_dir));
    r
}

/// One path to try for an icon file: the directory with index `dir` in the
/// search list, taken as it is or under the repository root, and the file
/// under its development name (in a subdirectory) or its packaged name.
#[derive(PartialEq, Eq, Structural, Clone, Copy, Debug)]
pub struct IconProbe {
    pub dir: usize,
    pub from_repo_root: bool,
    pub nested: bool,
}

/// The paths tried in one directory: the development name, then the
/// packaged one; a relative directory is tried again under the repository
/// root, in the same order.
pub open spec fn dir_probes(dir: usize, relative: bool) -> Seq<IconProbe> {
    seq![
        IconProbe { dir, from_repo_root: false, nested: true },
        IconProbe { dir, from_repo_root: false, nested: false },
    ] + if relative {
        seq![
            IconProbe { dir, from_repo_root: true, nested: true },
            IconProbe { dir, from_repo_root: true, nested: false },
        ]
    } else {
        seq![]
    }
}

/// The paths tried, directory by directory; `relative[i]` says whether
/// directory `i` is a relative path.
pub open spec fn spec_probes(relative: Seq<bool>) -> Seq<IconProbe>
    decreases relative.len(),
{
    if relative.len() == 0 {
        seq![]
    } else {
        spec_probes(relative.drop_last()) + dir_probes(
            (relative.len() - 1) as usize,
            relative.last(),
        )
    }
}

/// The order in which paths are tried for one icon file; the first that
/// exists is loaded.
pub fn icon_probes(relative: &Vec<bool>) -> (r: Vec<IconProbe>)
    ensures
        r@ == spec_probes(relative@),
{
    let mut r: Vec<IconProbe> = Vec::new();
    let mut i: usize = 0;
    while i < relative.len()
        invariant
            i <= relative@.len(),
            r@ == spec_probes(relative@.subrange(0, i as int)),
        decreases relative@.len() - i,
    {
        r.push(IconProbe { dir: i, from_repo_root: false, nested: true });
        r.push(IconProbe { dir: i, from_repo_root: false, nested: false });
        if relative[i] {
            r.push(IconProbe { dir: i, from_repo_root: true, nested: true });
            r.push(IconProbe { dir: i, from_repo_root: true, nested: false });
        }
        assert(relative@.subrange(0, i + 1).drop_last() =~= relative@.subrange(0, i as int));
        i = i + 1;
        assert(r@ =~= spec_probes(relative@.subrange(0, i as int)));
    }
    assert(relative@.subrange(0, i as int) =~= relative@);
    r
}

/// The development name of the "previous" icon.
pub const PREV_ICON_NESTED: &'static str = "win-thumbbar/app-back.ico";
/// The packaged name of the "previous" icon.
pub const PREV_ICON_FLAT: &'static str = "app-back.ico";
/// The development name of the "play/pause" icon.
pub const PLAY_ICON_NESTED: &'static str = "win-thumbbar/app-play.ico";
/// The packaged name of the "play/pause" icon.
pub const PLAY_ICON_FLAT: &'static str = "app-play.ico";
/// The development name of the "next" icon.
pub const NEXT_ICON_NESTED: &'static str = "win-thumbbar/app-next.ico";
/// The packaged name of the "next" icon.
pub const NEXT_ICON_FLAT: &'static str = "app-next.ico";

/// The file name of button `b`'s icon, in the development or packaged layout.
pub open spec fn spec_icon_file(b: ThumbButton, nested: bool) -> &'static str {
    match b {
        ThumbButton::Prev => if nested { PREV_ICON_NESTED } else { PREV_ICON_FLAT },
        ThumbButton::PlayPause => if nested { PLAY_ICON_NESTED } else { PLAY_ICON_FLAT },
        ThumbButton::Next => if nested { NEXT_ICON_NESTED } else { NEXT_ICON_FLAT },
    }
}

pub fn icon_file(b: ThumbButton, nested: bool) -> (r: &'static str)
    ensures
        r == spec_icon_file(b, nested),
{
    match b {
        ThumbButton::Prev => if nested { PREV_ICON_NESTED } else { PREV_ICON_FLAT },
        ThumbButton::PlayPause => if nested { PLAY_ICON_NESTED } else { PLAY_ICON_FLAT },
        ThumbButton::Next => if nested { NEXT_ICON_NESTED } else { NEXT_ICON_FLAT },
    }
}

} // verus!
