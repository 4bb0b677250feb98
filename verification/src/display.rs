//! What the presentation layer keeps of the eject subsystem: the state it
//! was told last and the closing message, which it shows for a while.

use vstd::prelude::*;
use crate::state::{EjectState, EjectStateView};
use crate::text::{contains, occurs};

verus! {

/// How long a closing message is shown, in milliseconds.
pub const DISPLAY_WINDOW: u64 = 3000;

/// The mathematical model of a [`Display`].
pub struct DisplayView {
    /// The state that is shown.
    pub state: EjectStateView,
    /// The closing message that is shown; empty where none is.
    pub status: Seq<char>,
    /// When the closing message came, where one is shown.
    pub since: Option<u64>,
}

/// The display before anything was shown.
pub open spec fn blank() -> DisplayView {
    DisplayView { state: EjectStateView::Idle, status: Seq::empty(), since: None }
}

/// The display after a state came in at the time `now`. The state replaces
/// the one shown, occupants and all; a closing message is kept with its
/// time, and any other state wipes the message that was shown.
pub open spec fn observed(d: DisplayView, state: EjectStateView, now: u64) -> DisplayView {
    match state {
        EjectStateView::Done { drive, message } => DisplayView {
            state,
            status: message,
            since: Some(now),
        },
        _ => DisplayView { state, status: Seq::empty(), since: None },
    }
}

/// The closing message has been shown for longer than the display window.
pub open spec fn expired(d: DisplayView, now: u64) -> bool {
    d.since matches Some(since) && now - since > DISPLAY_WINDOW
}

/// The display at the time `now`: a closing message that has been shown
/// for longer than the display window is wiped, and `Done` gives way to
/// `Idle`.
pub open spec fn ticked(d: DisplayView, now: u64) -> DisplayView {
    if expired(d, now) {
        DisplayView {
            state: if d.state is Done {
                EjectStateView::Idle
            } else {
                d.state
            },
            status: Seq::empty(),
            since: None,
        }
    } else {
        d
    }
}

/// The display after the user put the shown state away.
pub open spec fn dismissed(d: DisplayView) -> DisplayView {
    DisplayView { state: EjectStateView::Idle, ..d }
}

/// A message tells of a failure: it carries the mark of failure or the
/// word for it.
pub open spec fn tells_failure(message: Seq<char>) -> bool {
    occurs(message, "❌"@) || occurs(message, "失败"@)
}

/// A closing message stays for the display window and no longer: shown at
/// `since`, it is still there at any time up to the end of the window, and
/// at any later time the display is idle and holds no message.
pub proof fn lemma_done_gives_way_to_idle(
    d: DisplayView,
    drive: Seq<char>,
    message: Seq<char>,
    since: u64,
    now: u64,
)
    requires
        since <= now,
    ensures
        ({
            let shown = observed(d, EjectStateView::Done { drive, message }, since);
            &&& shown.state == EjectStateView::Done { drive, message }
            &&& shown.status == message
            &&& now - since <= DISPLAY_WINDOW ==> ticked(shown, now) == shown
            &&& now - since > DISPLAY_WINDOW ==> ticked(shown, now) == blank()
        }),
{
}

/// A state that ends a command leaves no occupants of an earlier state
/// behind: after any state came in, the occupants shown are those of that
/// state, or none.
pub proof fn lemma_state_replaces_occupants(d: DisplayView, state: EjectStateView, now: u64)
    ensures
        observed(d, state, now).state == state,
        !(state is Occupied) ==> !(observed(d, state, now).state is Occupied),
        !(state is Done) ==> observed(d, state, now).status.len() == 0,
{
}

/// What the presentation layer keeps of the eject subsystem.
#[derive(Clone, Debug, PartialEq, Eq)]
pub struct Display {
    state: EjectState,
    status: String,
    since: Option<u64>,
}

impl View for Display {
    type V = DisplayView;

    closed spec fn view(&self) -> DisplayView {
        DisplayView { state: self.state@, status: self.status@, since: self.since }
    }
}

/// Whether a message tells of a failure.
pub fn shows_failure(message: &str) -> (b: bool)
    ensures
        b == tells_failure(message@),
{
    contains(message, "❌") || contains(message, "失败")
}

impl Display {
    /// The display before anything was shown.
    pub fn new() -> (d: Display)
        ensures
            d@ == blank(),
    {
        Display { state: EjectState::Idle, status: String::new(), since: None }
    }

    /// The state that is shown.
    pub fn state(&self) -> (s: &EjectState)
        ensures
            s@ == self@.state,
    {
        &self.state
    }

    /// The closing message that is shown; empty where none is.
    pub fn status(&self) -> (s: &String)
        ensures
            s@ == self@.status,
    {
        &self.status
    }

    /// Takes a state in that came at the time `now`, in milliseconds.
    pub fn observe(self, state: EjectState, now: u64) -> (d: Display)
        ensures
            d@ == observed(self@, state@, now),
    {
        match &state {
            EjectState::Done { drive, message } => {
                let status = message.clone();
                Display { state, status, since: Some(now) }
            },
            _ => Display { state, status: String::new(), since: None },
        }
    }

    /// Brings the display to the time `now`, in milliseconds.
    pub fn tick(self, now: u64) -> (d: Display)
        ensures
            d@ == ticked(self@, now),
    {
        match self.since {
            Some(since) => {
                if now > since && now - since > DISPLAY_WINDOW {
                    let state = match self.state {
                        EjectState::Done { .. } => EjectState::Idle,
                        other => other,
                    };
                    Display { state, status: String::new(), since: None }
                } else {
                    self
                }
            },
            None => self,
        }
    }

    /// Puts the shown state away.
    pub fn dismiss(self) -> (d: Display)
        ensures
            d@ == dismissed(self@),
    {
        Display { state: EjectState::Idle, status: self.status, since: self.since }
    }
}

} // verus!
