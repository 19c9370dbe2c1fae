use qobuz_player::handle::HandleSlot;
use qobuz_player::subclass::{NextProc, ProcRestore, Subclass};

#[test]
fn handle_slot_stores_latest_and_ignores_zero() {
    let mut slot = HandleSlot::new();
    assert_eq!(slot.get(), None);
    assert_eq!(slot.usable_handle(), None);
    slot.set(0);
    assert_eq!(slot.get(), Some(0));
    assert_eq!(slot.usable_handle(), None);
    slot.set(0x1234);
    slot.set(0x5678);
    assert_eq!(slot.get(), Some(0x5678));
    assert_eq!(slot.usable_handle(), Some(0x5678));
    slot.clear();
    assert_eq!(slot.get(), None);
}

#[test]
fn first_install_is_recorded_and_kept() {
    let mut s = Subclass::new();
    // the first swap hands back the system's procedure
    s.installed(7, 0x2000, 0x1000);
    // later swaps on the same window hand back the replacement itself
    s.installed(7, 0x2000, 0x2000);
    s.installed(7, 0x2000, 0x2000);
    assert_eq!(s.record, Some((7, 0x1000)));
    assert_eq!(s.next_proc(7), NextProc::Previous(0x1000));
}

#[test]
fn failed_swap_records_nothing() {
    let mut s = Subclass::new();
    s.installed(7, 0x2000, 0);
    assert_eq!(s.record, None);
    assert_eq!(s.next_proc(7), NextProc::Default);
    s.installed(7, 0x2000, 0x1000);
    assert_eq!(s.record, Some((7, 0x1000)));
}

#[test]
fn uninstall_after_install_restores_original() {
    let mut s = Subclass::new();
    s.installed(7, 0x2000, 0x1000);
    s.installed(7, 0x2000, 0x2000);
    assert_eq!(s.restore(Some(7)), Some(ProcRestore { hwnd: 7, procedure: 0x1000 }));
}

#[test]
fn uninstall_without_install_writes_nothing() {
    let s = Subclass::new();
    assert_eq!(s.restore(Some(7)), None);
    assert_eq!(s.restore(None), None);
}

#[test]
fn record_belongs_to_its_window() {
    let mut s = Subclass::new();
    s.installed(7, 0x2000, 0x1000);
    assert_eq!(s.restore(Some(8)), None);
    assert_eq!(s.next_proc(8), NextProc::Default);
    // a new window starts a new lifetime
    s.installed(8, 0x2000, 0x3000);
    assert_eq!(s.record, Some((8, 0x3000)));
    assert_eq!(s.restore(Some(8)), Some(ProcRestore { hwnd: 8, procedure: 0x3000 }));
}

#[test]
fn replacement_is_never_recorded_as_previous() {
    let mut s = Subclass::new();
    s.installed(7, 0x2000, 0x1000);
    s.installed(8, 0x2000, 0x3000);
    // back on the first window, whose procedure is already the replacement
    s.installed(7, 0x2000, 0x2000);
    assert_eq!(s.record, Some((8, 0x3000)));
    assert_eq!(s.restore(Some(7)), None);
}
