use vstd::prelude::*;

verus! {

/// A process-wide slot that holds the current top-level window handle.
///
/// The slot is rewritten whenever the window is shown again, since hiding,
/// minimizing and restoring may change which handle is usable. A stored
/// handle of zero means "no valid window": every consumer treats it as a
/// reason to do nothing.
pub struct HandleSlot {
    pub current: Option<isize>,
}

impl HandleSlot {
    /// The value last stored, if any.
    pub open spec fn stored(&self) -> Option<isize> {
        self.current
    }

    /// The handle on which native operations may run: a stored, non-zero one.
    pub open spec fn usable(&self) -> Option<isize> {
        match self.current {
            Some(h) => if h != 0 { Some(h) } else { None },
            None => None,
        }
    }

    /// An empty slot.
    pub fn new() -> (r: HandleSlot)
        ensures
            r.stored() is None,
    {
        HandleSlot { current: None }
    }

    /// Stores `h`, replacing any earlier value.
    pub fn set(&mut self, h: isize)
        ensures
            final(self).stored() == Some(h),
    {
        self.current = Some(h);
    }

    /// Forgets the stored handle.
    pub fn clear(&mut self)
        ensures
            final(self).stored() is None,
    {
        self.current = None;
    }

    /// The latest stored value, or `None` if never set or cleared.
    pub fn get(&self) -> (r: Option<isize>)
        ensures
            r == self.stored(),
    {
        self.current
    }

    /// The stored handle if it is non-zero.
    pub fn usable_handle(&self) -> (r: Option<isize>)
        ensures
            r == self.usable(),
    {
        match self.current {
            Some(h) => if h != 0 { Some(h) } else { None },
            None => None,
        }
    }
}

} // verus!
