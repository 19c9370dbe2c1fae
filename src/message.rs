use vstd::prelude::*;

verus! {

/// The generic command message; taskbar button clicks arrive as this.
pub const WM_COMMAND: u32 = 0x0111;

/// The system command message; the minimize command arrives as this.
pub const WM_SYSCOMMAND: u32 = 0x0112;

/// The system command subcode for "minimize".
pub const SC_MINIMIZE: usize = 0xF020;

/// The notification code of a click on a thumbnail toolbar button.
pub const THBN_CLICKED: u32 = 0x1800;

/// Identifier of the "previous track" button.
pub const ID_PREV: u32 = 100;

/// Identifier of the "play/pause" button.
pub const ID_PLAY_PAUSE: u32 = 101;

/// Identifier of the "next track" button.
pub const ID_NEXT: u32 = 102;

/// One of the three thumbnail toolbar buttons, in toolbar order.
#[derive(PartialEq, Eq, Structural, Clone, Copy, Debug)]
pub enum ThumbButton {
    Prev,
    PlayPause,
    Next,
}

impl ThumbButton {
    /// The button's stable identifier; it never changes across re-publishes,
    /// so a click that arrives during a transition still maps correctly.
    pub open spec fn spec_id(self) -> u32 {
        match self {
            ThumbButton::Prev => ID_PREV,
            ThumbButton::PlayPause => ID_PLAY_PAUSE,
            ThumbButton::Next => ID_NEXT,
        }
    }

    /// The button's position on the toolbar, and in the icon set.
    pub open spec fn spec_slot(self) -> int {
        match self {
            ThumbButton::Prev => 0,
            ThumbButton::PlayPause => 1,
            ThumbButton::Next => 2,
        }
    }

    pub fn id(&self) -> (r: u32)
        ensures
            r == self.spec_id(),
    {
        match self {
            ThumbButton::Prev => ID_PREV,
            ThumbButton::PlayPause => ID_PLAY_PAUSE,
            ThumbButton::Next => ID_NEXT,
        }
    }

    /// The button whose identifier is `id`, if any.
    pub fn from_id(id: u32) -> (r: Option<ThumbButton>)
        ensures
            match r {
                Some(b) => b.spec_id() == id,
                None => id != ID_PREV && id != ID_PLAY_PAUSE && id != ID_NEXT,
            },
    {
        if id == ID_PREV {
            Some(ThumbButton::Prev)
        } else if id == ID_PLAY_PAUSE {
            Some(ThumbButton::PlayPause)
        } else if id == ID_NEXT {
            Some(ThumbButton::Next)
        } else {
            None
        }
    }
}

/// The low 16 bits of a message parameter.
pub open spec fn spec_low_word(w: usize) -> usize {
    w & 0xffff
}

/// Bits 16 to 31 of a message parameter.
pub open spec fn spec_high_word(w: usize) -> usize {
    (w >> 16usize) & 0xffff
}

/// The button that a message reports as clicked: a command message whose
/// low word is a button identifier and whose high word is the click
/// notification.
pub open spec fn spec_thumb_click(msg: u32, wparam: usize) -> Option<ThumbButton> {
    if msg == WM_COMMAND && spec_high_word(wparam) == THBN_CLICKED as usize {
        if spec_low_word(wparam) == ID_PREV as usize {
            Some(ThumbButton::Prev)
        } else if spec_low_word(wparam) == ID_PLAY_PAUSE as usize {
            Some(ThumbButton::PlayPause)
        } else if spec_low_word(wparam) == ID_NEXT as usize {
            Some(ThumbButton::Next)
        } else {
            None
        }
    } else {
        None
    }
}

/// Whether a message is the system "minimize" command. The low four bits of
/// the subcode are the system's own and are masked off.
pub open spec fn spec_is_minimize(msg: u32, wparam: usize) -> bool {
    msg == WM_SYSCOMMAND && (wparam & 0xfff0) == SC_MINIMIZE
}

pub fn low_word(w: usize) -> (r: usize)
    ensures
        r == spec_low_word(w),
        r <= 0xffff,
{
    let r = w & 0xffff;
    assert(r <= 0xffff) by (bit_vector)
        requires
            r == w & 0xffff,
    ;
    r
}

pub fn high_word(w: usize) -> (r: usize)
    ensures
        r == spec_high_word(w),
        r <= 0xffff,
{
    let r = (w >> 16usize) & 0xffff;
    assert(r <= 0xffff) by (bit_vector)
        requires
            r == (w >> 16usize) & 0xffff,
    ;
    r
}

/// Decodes a thumbnail toolbar click; `None` for every other message.
pub fn decode_thumb_click(msg: u32, wparam: usize) -> (r: Option<ThumbButton>)
    ensures
        r == spec_thumb_click(msg, wparam),
{
    if msg != WM_COMMAND || high_word(wparam) != THBN_CLICKED as usize {
        return None;
    }
    let id = low_word(wparam);
    ThumbButton::from_id(id as u32)
}

/// Whether a message is the system "minimize" command.
pub fn is_minimize_command(msg: u32, wparam: usize) -> (r: bool)
    ensures
        r == spec_is_minimize(msg, wparam),
{
    msg == WM_SYSCOMMAND && (wparam & 0xfff0) == SC_MINIMIZE
}

} // verus!
