use qobuz_player::icons::{IconCache, IconLoad, IconSet};
use qobuz_player::message::{THBN_CLICKED, WM_COMMAND};
use qobuz_player::router::{ClickEffect, ClickPolicy, RouteOutcome};
use qobuz_player::subclass::{NextProc, ProcRestore};
use qobuz_player::thumbar::{
    add_thumb_buttons, add_thumb_buttons_native, cleanup_thumbar, init_thumbar, load_icons,
    register_subclass, remove_subclass, remove_thumb_buttons, set_stored_hwnd, subclass_installed,
    thumb_proc, ThumbarStep, BUTTON_FLAGS, BUTTON_MASK,
};

fn loads() -> [IconLoad; 3] {
    [
        IconLoad::Found { full: 1, small: 2 },
        IconLoad::Found { full: 3, small: 4 },
        IconLoad::Missing,
    ]
}

#[test]
fn nothing_is_done_without_a_window() {
    let t = init_thumbar(ClickPolicy::MediaKey);
    assert_eq!(add_thumb_buttons(&t), vec![ThumbarStep::LoadIcons]);
    assert_eq!(register_subclass(&t), None);
    assert!(add_thumb_buttons_native(&t).is_none());
    assert_eq!(remove_thumb_buttons(&t), None);
}

#[test]
fn zero_handle_is_a_no_op() {
    let mut t = init_thumbar(ClickPolicy::MediaKey);
    set_stored_hwnd(&mut t, 0);
    assert_eq!(register_subclass(&t), None);
    assert!(add_thumb_buttons_native(&t).is_none());
}

#[test]
fn buttons_carry_ids_icons_and_tooltips() {
    let mut t = init_thumbar(ClickPolicy::MediaKey);
    set_stored_hwnd(&mut t, 42);
    assert_eq!(
        add_thumb_buttons(&t),
        vec![ThumbarStep::LoadIcons, ThumbarStep::RegisterSubclass, ThumbarStep::PublishButtons]
    );
    assert_eq!(load_icons(&mut t, loads()), vec![1, 3]);
    let update = add_thumb_buttons_native(&t).unwrap();
    assert_eq!(update.hwnd, 42);
    let ids: Vec<u32> = update.buttons.iter().map(|b| b.id).collect();
    let icons: Vec<usize> = update.buttons.iter().map(|b| b.icon).collect();
    let tips: Vec<&str> = update.buttons.iter().map(|b| b.tooltip).collect();
    assert_eq!(ids, vec![100, 101, 102]);
    assert_eq!(icons, vec![2, 4, 0]);
    assert_eq!(tips, vec!["Prev", "Play-Pause", "Next"]);
    assert!(update.buttons.iter().all(|b| b.mask == BUTTON_MASK && b.flags == BUTTON_FLAGS));
    assert_eq!(BUTTON_MASK, 0x2 | 0x4 | 0x8);
}

#[test]
fn repeated_shows_keep_three_icons_and_first_procedure() {
    let mut t = init_thumbar(ClickPolicy::Script);
    let mut allocated: Vec<usize> = Vec::new();
    let mut released: Vec<usize> = Vec::new();
    let mut next_handle: usize = 100;
    for (cycle, hwnd) in [42isize, 42, 43, 43, 42].iter().enumerate() {
        set_stored_hwnd(&mut t, *hwnd);
        for step in add_thumb_buttons(&t) {
            match step {
                ThumbarStep::LoadIcons => {
                    let mut l = [IconLoad::Missing; 3];
                    for slot in l.iter_mut() {
                        *slot = IconLoad::Found { full: next_handle, small: next_handle + 1 };
                        allocated.push(next_handle);
                        allocated.push(next_handle + 1);
                        next_handle += 2;
                    }
                    released.extend(load_icons(&mut t, l));
                }
                ThumbarStep::RegisterSubclass => {
                    let h = register_subclass(&t).unwrap();
                    // the first swap on a window returns the system procedure,
                    // every later one the replacement itself
                    let returned = if cycle == 0 || cycle == 2 { 0x9000 + h } else { 0x7777 };
                    subclass_installed(&mut t, h, 0x7777, returned);
                }
                ThumbarStep::PublishButtons => {
                    assert!(add_thumb_buttons_native(&t).is_some());
                }
            }
        }
    }
    assert_eq!(allocated.len(), 6);
    assert_eq!(released, vec![100, 102, 104]);
    assert_eq!(t.icons, IconCache::Loaded(IconSet { prev: 101, play_pause: 103, next: 105 }));
    // window 43 took over the record; the swap back on 42 captured nothing
    assert_eq!(t.subclass.record, Some((43, 0x9000 + 43)));
    assert_eq!(remove_subclass(&t), None);
    set_stored_hwnd(&mut t, 43);
    assert_eq!(remove_subclass(&t), Some(ProcRestore { hwnd: 43, procedure: 0x9000 + 43 }));
}

#[test]
fn cleanup_restores_and_releases_once() {
    let mut t = init_thumbar(ClickPolicy::MediaKey);
    set_stored_hwnd(&mut t, 42);
    load_icons(&mut t, loads());
    subclass_installed(&mut t, 42, 0x7777, 0x1000);
    let c = cleanup_thumbar(&mut t);
    assert_eq!(c.restore, Some(ProcRestore { hwnd: 42, procedure: 0x1000 }));
    assert_eq!(c.release, vec![2, 4]);
    let again = cleanup_thumbar(&mut t);
    assert!(again.release.is_empty());
    assert_eq!(add_thumb_buttons(&t), vec![ThumbarStep::RegisterSubclass, ThumbarStep::PublishButtons]);
    let update = add_thumb_buttons_native(&t).unwrap();
    assert!(update.buttons.iter().all(|b| b.icon == 0));
}

#[test]
fn thumb_proc_routes_by_policy() {
    let mut t = init_thumbar(ClickPolicy::MediaKey);
    set_stored_hwnd(&mut t, 42);
    subclass_installed(&mut t, 42, 0x7777, 0x1000);
    let click = ((THBN_CLICKED as usize) << 16) | 101;
    assert!(matches!(thumb_proc(&t, 42, WM_COMMAND, click), RouteOutcome::Click(ClickEffect::MediaKey(0xB3))));
    match thumb_proc(&t, 42, WM_COMMAND, 101) {
        RouteOutcome::Forward(next) => assert_eq!(next, NextProc::Previous(0x1000)),
        RouteOutcome::Click(_) => panic!("consumed a command without the click code"),
    }
}
