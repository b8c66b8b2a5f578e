//! Input events: keys as the terminal reports them, and the application
//! events they stand for.
use vstd::prelude::*;
use crate::time::{instant_now, millis_since};

verus! {

/// What the user asked for.
#[derive(Debug, Clone, Copy, PartialEq, Eq, Structural)]
pub enum AppEvent {
    Quit,
    MoveUp,
    MoveDown,
    MoveLeft,
    MoveRight,
    Select,
    ToggleSelection,
    Refresh,
    EnterDetail,
    ExitDetail,
    AssignToMe,
    StartProgress,
    Resolve,
    ShowTransitions,
    CreateTicket,
    AddComment,
    OpenInBrowser,
    Unknown,
}

/// A key as the terminal reports it.
#[derive(Debug, Clone, Copy, PartialEq, Eq, Structural)]
pub enum KeyCode {
    Char(char),
    Enter,
    Esc,
    Backspace,
    Up,
    Down,
    Left,
    Right,
    Other,
}

/// The modifier keys held; `other` covers any beyond shift, control and alt.
#[derive(Debug, Clone, Copy, PartialEq, Eq, Structural)]
pub struct KeyModifiers {
    pub shift: bool,
    pub control: bool,
    pub alt: bool,
    pub other: bool,
}

impl KeyModifiers {
    pub open spec fn none_held(self) -> bool {
        !self.shift && !self.control && !self.alt && !self.other
    }
}

/// A key press.
#[derive(Debug, Clone, Copy, PartialEq, Eq, Structural)]
pub struct KeyEvent {
    pub code: KeyCode,
    pub modifiers: KeyModifiers,
}

/// The event a key press stands for. `q` and Esc quit when no modifier is
/// held, shift-Q and ctrl-c quit too; arrows and `hjkl` move; Enter opens;
/// space toggles the selection; `r`/`R` refresh; Backspace goes back; `t`
/// lists transitions, `a` assigns, `s` starts progress, `v` resolves, `o`
/// opens the browser.
pub open spec fn event_for(k: KeyEvent) -> AppEvent {
    match k.code {
        KeyCode::Esc => if k.modifiers.none_held() { AppEvent::Quit } else { AppEvent::Unknown },
        KeyCode::Up => AppEvent::MoveUp,
        KeyCode::Down => AppEvent::MoveDown,
        KeyCode::Left => AppEvent::MoveLeft,
        KeyCode::Right => AppEvent::MoveRight,
        KeyCode::Enter => AppEvent::EnterDetail,
        KeyCode::Backspace => AppEvent::ExitDetail,
        KeyCode::Other => AppEvent::Unknown,
        KeyCode::Char(c) => {
            if c == 'q' {
                if k.modifiers.none_held() { AppEvent::Quit } else { AppEvent::Unknown }
            } else if c == 'Q' {
                if k.modifiers.shift { AppEvent::Quit } else { AppEvent::Unknown }
            } else if c == 'k' {
                AppEvent::MoveUp
            } else if c == 'j' {
                AppEvent::MoveDown
            } else if c == 'h' {
                AppEvent::MoveLeft
            } else if c == 'l' {
                AppEvent::MoveRight
            } else if c == ' ' {
                AppEvent::ToggleSelection
            } else if c == 'r' || c == 'R' {
                AppEvent::Refresh
            } else if c == 'c' {
                if k.modifiers.control { AppEvent::Quit } else { AppEvent::Unknown }
            } else if c == 't' {
                AppEvent::ShowTransitions
            } else if c == 'a' {
                AppEvent::AssignToMe
            } else if c == 's' {
                AppEvent::StartProgress
            } else if c == 'v' {
                AppEvent::Resolve
            } else if c == 'o' {
                AppEvent::OpenInBrowser
            } else {
                AppEvent::Unknown
            }
        },
    }
}

/// Whether a tick is due at `now` after one at `last`, and the time of the
/// last tick afterwards.
pub open spec fn tick_outcome(last: u64, rate: u64, now: u64) -> (bool, u64) {
    if now >= last && now - last >= rate {
        (true, now)
    } else {
        (false, last)
    }
}

/// Turns key presses into events and paces the periodic tick.
pub struct EventHandler {
    pub tick_rate_ms: u64,
    /// Clock reading of the last tick.
    pub last_tick_ms: u64,
    /// Where the handler's clock starts.
    pub origin: std::time::Instant,
}

impl EventHandler {
    pub fn new(tick_rate_ms: u64) -> (r: Self)
        ensures
            r.tick_rate_ms == tick_rate_ms,
            r.last_tick_ms == 0,
    {
        EventHandler { tick_rate_ms, last_tick_ms: 0, origin: instant_now() }
    }

    /// Whether a tick is due at clock reading `now`; a due tick restarts the
    /// period.
    pub fn should_tick_at(&mut self, now: u64) -> (r: bool)
        ensures
            r == (now >= old(self).last_tick_ms && now - old(self).last_tick_ms >= old(self).tick_rate_ms),
            final(self).last_tick_ms == if r { now } else { old(self).last_tick_ms },
            final(self).tick_rate_ms == old(self).tick_rate_ms,
    {
        if now >= self.last_tick_ms && now - self.last_tick_ms >= self.tick_rate_ms {
            self.last_tick_ms = now;
            true
        } else {
            false
        }
    }

    /// Whether a tick is due now.
    pub fn should_tick(&mut self) -> (r: bool)
        ensures
            final(self).tick_rate_ms == old(self).tick_rate_ms,
            exists|now: u64|
                (r, final(self).last_tick_ms) == #[trigger] tick_outcome(
                    old(self).last_tick_ms,
                    old(self).tick_rate_ms,
                    now,
                ),
    {
        let ghost last = self.last_tick_ms;
        let now = millis_since(&self.origin);
        let r = self.should_tick_at(now);
        assert((r, self.last_tick_ms) == tick_outcome(last, self.tick_rate_ms, now));
        r
    }

    /// The event a key press stands for.
    pub fn handle_key(key_event: KeyEvent) -> (r: AppEvent)
        ensures
            r == event_for(key_event),
    {
        let none_held = !key_event.modifiers.shift && !key_event.modifiers.control
            && !key_event.modifiers.alt && !key_event.modifiers.other;
        match key_event.code {
            KeyCode::Esc => if none_held { AppEvent::Quit } else { AppEvent::Unknown },
            KeyCode::Up => AppEvent::MoveUp,
            KeyCode::Down => AppEvent::MoveDown,
            KeyCode::Left => AppEvent::MoveLeft,
            KeyCode::Right => AppEvent::MoveRight,
            KeyCode::Enter => AppEvent::EnterDetail,
            KeyCode::Backspace => AppEvent::ExitDetail,
            KeyCode::Other => AppEvent::Unknown,
            KeyCode::Char(c) => {
                if c == 'q' {
                    if none_held { AppEvent::Quit } else { AppEvent::Unknown }
                } else if c == 'Q' {
                    if key_event.modifiers.shift { AppEvent::Quit } else { AppEvent::Unknown }
                } else if c == 'k' {
                    AppEvent::MoveUp
                } else if c == 'j' {
                    AppEvent::MoveDown
                } else if c == 'h' {
                    AppEvent::MoveLeft
                } else if c == 'l' {
                    AppEvent::MoveRight
                } else if c == ' ' {
                    AppEvent::ToggleSelection
                } else if c == 'r' || c == 'R' {
                    AppEvent::Refresh
                } else if c == 'c' {
                    if key_event.modifiers.control { AppEvent::Quit } else { AppEvent::Unknown }
                } else if c == 't' {
                    AppEvent::ShowTransitions
                } else if c == 'a' {
                    AppEvent::AssignToMe
                } else if c == 's' {
                    AppEvent::StartProgress
                } else if c == 'v' {
                    AppEvent::Resolve
                } else if c == 'o' {
                    AppEvent::OpenInBrowser
                } else {
                    AppEvent::Unknown
                }
            },
        }
    }
}

impl Default for EventHandler {
    /// A quarter-second tick.
    fn default() -> (r: Self)
        ensures
            r.tick_rate_ms == 250,
            r.last_tick_ms == 0,
    {
        Self::new(250)
    }
}

} // verus!
