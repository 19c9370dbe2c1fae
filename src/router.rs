use vstd::prelude::*;
use crate::message::{ThumbButton, spec_thumb_click, decode_thumb_click, WM_COMMAND, spec_low_word, spec_high_word, THBN_CLICKED, ID_PREV, ID_PLAY_PAUSE, ID_NEXT};
use crate::subclass::{NextProc, Subclass};

verus! {

/// Virtual-key code of the "previous track" media key.
pub const VK_MEDIA_PREV_TRACK: u16 = 0xB1;
/// Virtual-key code of the "next track" media key.
pub const VK_MEDIA_NEXT_TRACK: u16 = 0xB0;
/// Virtual-key code of the "play/pause" media key.
pub const VK_MEDIA_PLAY_PAUSE: u16 = 0xB3;

/// Clicks the first previous-track control found in the hosted page.
pub const PREV_SCRIPT: &'static str = r#"(function(){ let selectors = ['button[aria-label*="revious"]', 'button[aria-label*="Previous"]', 'button[aria-label*="PREVIOUS"]', 'button[title*="revious"]', 'button[title*="Previous"]', '.pct-player-previous', '.player__action-previous', 'button[class*="previous"]', 'button[class*="prev"]', 'button[class*="back"]', '[data-testid*="previous"]', '[data-testid*="prev"]', 'button.pct-player-previous', 'span.pct-player-previous']; for(let s of selectors) { let el = document.querySelector(s); if(el) { el.click(); return; } } })()"#;

/// Toggles the first media element of the hosted page, or clicks its
/// play/pause control when it has none.
pub const PLAY_PAUSE_SCRIPT: &'static str = r#"(function(){ let m = document.querySelector('audio, video'); if(m) { if(m.paused) m.play(); else m.pause(); } else { document.querySelector('button[aria-label*="lay"], button[aria-label*="ause"], .play-button, .pause-button, .pct-player-play, .pct-player-pause')?.click(); } })()"#;

/// Clicks the first next-track control found in the hosted page.
pub const NEXT_SCRIPT: &'static str = r#"(function(){ let selectors = ['button[aria-label*="ext"]', 'button[aria-label*="Next"]', '.pct-player-next', 'button[class*="next"]', '[data-testid*="next"]']; for(let s of selectors) { let el = document.querySelector(s); if(el) { el.click(); return; } } })()"#;

/// How a toolbar click is passed on. Either way the hosted application
/// stays the authority on transport state: a click only forwards intent.
#[derive(PartialEq, Eq, Structural, Clone, Copy, Debug)]
pub enum ClickPolicy {
    /// Press the matching system media key.
    MediaKey,
    /// Run a script in the hosted page that clicks the matching control.
    Script,
}

/// What a recognised click asks the native layer to do.
#[derive(Clone, Copy, Debug)]
pub enum ClickEffect {
    /// Send a press of the media key with this virtual-key code.
    MediaKey(u16),
    /// Evaluate this script in the hosted page.
    Script(&'static str),
}

pub open spec fn spec_dispatch(policy: ClickPolicy, b: ThumbButton) -> ClickEffect {
    match policy {
        ClickPolicy::MediaKey => ClickEffect::MediaKey(
            match b {
                ThumbButton::Prev => VK_MEDIA_PREV_TRACK,
                ThumbButton::PlayPause => VK_MEDIA_PLAY_PAUSE,
                ThumbButton::Next => VK_MEDIA_NEXT_TRACK,
            },
        ),
        ClickPolicy::Script => ClickEffect::Script(
            match b {
                ThumbButton::Prev => PREV_SCRIPT,
                ThumbButton::PlayPause => PLAY_PAUSE_SCRIPT,
                ThumbButton::Next => NEXT_SCRIPT,
            },
        ),
    }
}

/// The effect of a click on button `b` under `policy`.
pub fn dispatch(policy: ClickPolicy, b: ThumbButton) -> (r: ClickEffect)
    ensures
        r == spec_dispatch(policy, b),
{
    match policy {
        ClickPolicy::MediaKey => ClickEffect::MediaKey(
            match b {
                ThumbButton::Prev => VK_MEDIA_PREV_TRACK,
                ThumbButton::PlayPause => VK_MEDIA_PLAY_PAUSE,
                ThumbButton::Next => VK_MEDIA_NEXT_TRACK,
            },
        ),
        ClickPolicy::Script => ClickEffect::Script(
            match b {
                ThumbButton::Prev => PREV_SCRIPT,
                ThumbButton::PlayPause => PLAY_PAUSE_SCRIPT,
                ThumbButton::Next => NEXT_SCRIPT,
            },
        ),
    }
}

/// What the click router's window procedure does with one message.
#[derive(Clone, Copy, Debug)]
pub enum RouteOutcome {
    /// The message was a toolbar click: carry out the effect and report the
    /// message handled.
    Click(ClickEffect),
    /// Pass the message on unchanged, with no other effect.
    Forward(NextProc),
}

/// The router's decision for a message on `hwnd`: a toolbar click is
/// consumed and dispatched; every other message, including a command with
/// another identifier or another notification code, goes unchanged to the
/// next procedure of the chain.
pub fn route_message(sub: &Subclass, policy: ClickPolicy, hwnd: isize, msg: u32, wparam: usize) -> (r: RouteOutcome)
    ensures
        r == (match spec_thumb_click(msg, wparam) {
            Some(b) => RouteOutcome::Click(spec_dispatch(policy, b)),
            None => RouteOutcome::Forward(
                match sub.previous_of(hwnd) {
                    Some(p) => NextProc::Previous(p),
                    None => NextProc::Default,
                },
            ),
        }),
        msg == WM_COMMAND && (spec_high_word(wparam) != THBN_CLICKED as usize || (
        spec_low_word(wparam) != ID_PREV as usize && spec_low_word(wparam) != ID_PLAY_PAUSE as usize
            && spec_low_word(wparam) != ID_NEXT as usize)) ==> r is Forward,
{
    match decode_thumb_click(msg, wparam) {
        Some(b) => RouteOutcome::Click(dispatch(policy, b)),
        None => RouteOutcome::Forward(sub.next_proc(hwnd)),
    }
}

} // verus!
