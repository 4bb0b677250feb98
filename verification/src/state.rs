//! What the eject subsystem is asked to do, and what it reports while it
//! does it.

use vstd::prelude::*;
use crate::occupant::{duplicate_all, Occupant, OccupantView};

verus! {

/// A command to the eject worker.
#[derive(Clone, Debug, PartialEq, Eq)]
pub enum Command {
    /// Eject the drive if nothing holds it, and report its occupants if
    /// something does.
    Scan(String),
    /// Clear the drive by force: terminate the given processes and whatever
    /// else holds the drive, then eject it.
    ForceEject(String, Vec<u32>),
    /// Dismount the volume with the platform's own utility, then eject.
    ManualDismount(String),
    /// Terminate one occupant of the drive, then eject if none is left.
    KillOne(u32, String),
}

/// The mathematical model of a [`Command`].
pub enum CommandView {
    Scan(Seq<char>),
    ForceEject(Seq<char>, Seq<u32>),
    ManualDismount(Seq<char>),
    KillOne(u32, Seq<char>),
}

impl View for Command {
    type V = CommandView;

    open spec fn view(&self) -> CommandView {
        match self {
            Command::Scan(drive) => CommandView::Scan(drive@),
            Command::ForceEject(drive, pids) => CommandView::ForceEject(drive@, pids@),
            Command::ManualDismount(drive) => CommandView::ManualDismount(drive@),
            Command::KillOne(pid, drive) => CommandView::KillOne(*pid, drive@),
        }
    }
}

impl DeepView for Command {
    type V = CommandView;

    open spec fn deep_view(&self) -> CommandView {
        self@
    }
}

/// The state of the eject subsystem, as the presentation layer sees it.
#[derive(Clone, Debug, PartialEq, Eq)]
pub enum EjectState {
    /// Nothing is going on.
    Idle,
    /// A command is at work; the notice says on what.
    Scanning(String),
    /// The drive is held by the listed processes.
    Occupied { drive: String, list: Vec<Occupant> },
    /// The drive is being ejected; the notice names it.
    Ejecting(String),
    /// The command has ended, well or badly, as the message says.
    Done { drive: String, message: String },
}

/// The mathematical model of an [`EjectState`].
pub enum EjectStateView {
    Idle,
    Scanning(Seq<char>),
    Occupied { drive: Seq<char>, list: Seq<OccupantView> },
    Ejecting(Seq<char>),
    Done { drive: Seq<char>, message: Seq<char> },
}

impl View for EjectState {
    type V = EjectStateView;

    open spec fn view(&self) -> EjectStateView {
        match self {
            EjectState::Idle => EjectStateView::Idle,
            EjectState::Scanning(notice) => EjectStateView::Scanning(notice@),
            EjectState::Occupied { drive, list } => EjectStateView::Occupied {
                drive: drive@,
                list: list.deep_view(),
            },
            EjectState::Ejecting(notice) => EjectStateView::Ejecting(notice@),
            EjectState::Done { drive, message } => EjectStateView::Done {
                drive: drive@,
                message: message@,
            },
        }
    }
}

impl DeepView for EjectState {
    type V = EjectStateView;

    open spec fn deep_view(&self) -> EjectStateView {
        self@
    }
}

impl EjectStateView {
    /// A state in which a command has ended.
    pub open spec fn is_terminal(self) -> bool {
        self is Done || self is Occupied
    }
}

impl EjectState {
    /// Whether a command has ended in this state.
    pub fn is_terminal(&self) -> (b: bool)
        ensures
            b == self@.is_terminal(),
    {
        match self {
            EjectState::Done { .. } => true,
            EjectState::Occupied { .. } => true,
            _ => false,
        }
    }

    /// A copy of this state.
    pub fn duplicate(&self) -> (s: EjectState)
        ensures
            s@ == self@,
    {
        match self {
            EjectState::Idle => EjectState::Idle,
            EjectState::Scanning(notice) => EjectState::Scanning(notice.clone()),
            EjectState::Occupied { drive, list } => EjectState::Occupied {
                drive: drive.clone(),
                list: duplicate_all(list),
            },
            EjectState::Ejecting(notice) => EjectState::Ejecting(notice.clone()),
            EjectState::Done { drive, message } => EjectState::Done {
                drive: drive.clone(),
                message: message.clone(),
            },
        }
    }
}

} // verus!
