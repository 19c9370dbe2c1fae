use vstd::prelude::*;

verus! {

/// Where a replacement window procedure sends a message it does not consume.
#[derive(PartialEq, Eq, Structural, Clone, Copy, Debug)]
pub enum NextProc {
    /// The procedure that the window held before the replacement was installed.
    Previous(isize),
    /// The system's default procedure: nothing was recorded for this window.
    Default,
}

/// A write of a window-procedure pointer back into a window.
#[derive(PartialEq, Eq, Structural, Clone, Copy, Debug)]
pub struct ProcRestore {
    pub hwnd: isize,
    pub procedure: isize,
}

/// The record that one consumer of the subclass chain keeps: the window it
/// replaced the procedure of, and the procedure that was there before.
///
/// The previous procedure is captured at most once per window: a second
/// install on the same window returns the replacement itself, and keeping
/// that would make teardown restore the replacement and loop forever.
pub struct Subclass {
    pub record: Option<(isize, isize)>,
}

impl Subclass {
    /// The previous procedure recorded for `hwnd`.
    pub open spec fn previous_of(self, hwnd: isize) -> Option<isize> {
        match self.record {
            Some((h, p)) => if h == hwnd { Some(p) } else { None },
            None => None,
        }
    }

    /// The record after a swap that installed `replacement` on `hwnd` handed
    /// back `returned`.
    ///
    /// A zero return means the swap failed, and a return of the replacement
    /// itself means it was already installed: neither is captured.
    pub open spec fn after_install(self, hwnd: isize, replacement: isize, returned: isize) -> Subclass {
        if self.previous_of(hwnd) is Some || returned == 0 || returned == replacement {
            self
        } else {
            Subclass { record: Some((hwnd, returned)) }
        }
    }

    /// The record after swaps on `hwnd` that handed back `rs`, in order.
    pub open spec fn after_installs(self, hwnd: isize, replacement: isize, rs: Seq<isize>) -> Subclass
        decreases rs.len(),
    {
        if rs.len() == 0 {
            self
        } else {
            self.after_install(hwnd, replacement, rs[0]).after_installs(hwnd, replacement, rs.drop_first())
        }
    }

    /// What uninstalling from the window `hwnd` (if any) writes back.
    pub open spec fn restore_for(self, hwnd: Option<isize>) -> Option<ProcRestore> {
        match hwnd {
            Some(h) => match self.previous_of(h) {
                Some(p) => Some(ProcRestore { hwnd: h, procedure: p }),
                None => None,
            },
            None => None,
        }
    }

    /// Every recorded previous procedure is a real one.
    pub open spec fn wf(self) -> bool {
        match self.record {
            Some((_, p)) => p != 0,
            None => true,
        }
    }

    /// A record that holds nothing yet.
    pub fn new() -> (r: Subclass)
        ensures
            r.record is None,
            r.wf(),
    {
        Subclass { record: None }
    }

    /// Notes that a swap that installed `replacement` on `hwnd` handed back
    /// `returned`.
    pub fn installed(&mut self, hwnd: isize, replacement: isize, returned: isize)
        ensures
            *final(self) == old(self).after_install(hwnd, replacement, returned),
            old(self).wf() ==> final(self).wf(),
    {
        let known = match self.record {
            Some((h, _)) => h == hwnd,
            None => false,
        };
        if !known && returned != 0 && returned != replacement {
            self.record = Some((hwnd, returned));
        }
    }

    /// Where a message on `hwnd` goes when the replacement does not consume it.
    pub fn next_proc(&self, hwnd: isize) -> (r: NextProc)
        ensures
            r == (match self.previous_of(hwnd) {
                Some(p) => NextProc::Previous(p),
                None => NextProc::Default,
            }),
    {
        match self.record {
            Some((h, p)) => if h == hwnd { NextProc::Previous(p) } else { NextProc::Default },
            None => NextProc::Default,
        }
    }

    /// What uninstalling from `hwnd` writes back; `None` means leave the
    /// window as it is (no window, or nothing recorded for it).
    pub fn restore(&self, hwnd: Option<isize>) -> (r: Option<ProcRestore>)
        ensures
            r == self.restore_for(hwnd),
    {
        match hwnd {
            Some(h) => match self.record {
                Some((rh, p)) => if rh == h { Some(ProcRestore { hwnd: h, procedure: p }) } else { None },
                None => None,
            },
            None => None,
        }
    }
}

/// Once a previous procedure is recorded for a window, no further install
/// on that window changes it.
pub proof fn lemma_recorded_previous_is_kept(s: Subclass, hwnd: isize, replacement: isize, rs: Seq<isize>)
    requires
        s.previous_of(hwnd) is Some,
    ensures
        s.after_installs(hwnd, replacement, rs).previous_of(hwnd) == s.previous_of(hwnd),
    decreases rs.len(),
{
    if rs.len() > 0 {
        lemma_recorded_previous_is_kept(
            s.after_install(hwnd, replacement, rs[0]),
            hwnd,
            replacement,
            rs.drop_first(),
        );
    }
}

/// For any sequence of installs on one window with no uninstall between
/// them, the recorded previous procedure is the one the first install
/// captured, never a later one.
pub proof fn lemma_first_install_wins(s: Subclass, hwnd: isize, replacement: isize, rs: Seq<isize>)
    requires
        s.previous_of(hwnd) is None,
        rs.len() > 0,
        rs[0] != 0,
        rs[0] != replacement,
    ensures
        s.after_installs(hwnd, replacement, rs).previous_of(hwnd) == Some(rs[0]),
{
    let first = s.after_install(hwnd, replacement, rs[0]);
    assert(first.previous_of(hwnd) == Some(rs[0]));
    lemma_recorded_previous_is_kept(first, hwnd, replacement, rs.drop_first());
}

/// Uninstalling after installs restores the procedure the window held
/// before the first one: the first swap hands back the original procedure
/// and every later swap hands back the replacement itself.
pub proof fn lemma_uninstall_restores_original(
    s: Subclass,
    hwnd: isize,
    original: isize,
    replacement: isize,
    later: nat,
)
    requires
        s.previous_of(hwnd) is None,
        original != 0,
        original != replacement,
    ensures
        s.after_installs(hwnd, replacement, seq![original] + Seq::new(later, |i: int| replacement))
            .restore_for(Some(hwnd)) == Some(ProcRestore { hwnd, procedure: original }),
{
    let rs = seq![original] + Seq::new(later, |i: int| replacement);
    assert(rs[0] == original);
    lemma_first_install_wins(s, hwnd, replacement, rs);
}

/// Uninstalling without a prior install writes nothing: the window keeps
/// whatever procedure it has.
pub proof fn lemma_uninstall_without_install_is_noop(s: Subclass, hwnd: Option<isize>)
    requires
        forall|h: isize| hwnd == Some(h) ==> s.previous_of(h) is None,
    ensures
        s.restore_for(hwnd) is None,
{
}

} // verus!
