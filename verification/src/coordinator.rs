//! The eject coordinator: what to do next for a command, given how the last
//! step went. The coordinator performs nothing itself. It hands out one
//! request at a time, the caller carries it out and comes back with the
//! reply, until the request is [`Request::Finished`].
//!
//! A reply that does not answer the request it follows counts as the
//! failure of that request: a listing then found nobody, an eject or a
//! dismount failed for an unknown reason, and whatever needs no answer goes
//! on.

use vstd::prelude::*;
use crate::drive::{canonical, drive_label, label_of, norm_drive};
use crate::failure::{known_veto, model_of, Failure, FailureView};
use crate::message::{
    clearing_notice, clearing_text, dismount_done_notice, dismount_done_text, dismounted_message,
    dismounted_text, dismounting_notice, dismounting_text, ejected_message, ejected_text,
    failure_mark, failure_message, failure_text, forced_message, forced_text, restart_advice,
    terminating_notice, terminating_text, Attempt,
};
use crate::occupant::{
    distinct_pids, keep_first, lemma_keep_first, merge_occupants, merged, occupant_pids, pids_of,
    Occupant, OccupantView,
};
use crate::state::{Command, CommandView, EjectState, EjectStateView};

verus! {

/// The pause after a process was terminated, in milliseconds.
pub const PAUSE_AFTER_KILL: u32 = 200;

/// The pause after the occupants were cleared by force, in milliseconds.
pub const PAUSE_AFTER_CLEARING: u32 = 300;

/// The pause after the utility dismounted the volume, in milliseconds.
pub const PAUSE_AFTER_DISMOUNT: u32 = 500;

/// What the caller is to do next.
#[derive(Clone, Debug, PartialEq, Eq)]
pub enum Request {
    /// Show this state to the presentation layer.
    Publish(EjectState),
    /// Ask the bus once to remove the drive, with nothing flushed or
    /// dismounted before.
    QuickEject(String),
    /// List the occupants of the drive that the resource session knows.
    ListOccupants(String),
    /// List the occupants of the drive that a sweep of the process table
    /// finds.
    SweepProcesses(String),
    /// Terminate these processes, as far as that goes.
    Terminate(Vec<u32>),
    /// Have the resource session shut the occupants of the drive down.
    ForceRelease(String),
    /// Run the whole eject protocol on the drive.
    SmartEject(String),
    /// Dismount the volume with the platform's own utility.
    Dismount(String),
    /// Wait this many milliseconds.
    Pause(u32),
    /// Tell the shell that the list of drives has changed.
    NotifyShell,
    /// Read the list of volumes anew.
    RefreshVolumes,
    /// The command has ended.
    Finished,
}

/// The mathematical model of a [`Request`].
pub enum RequestView {
    Publish(EjectStateView),
    QuickEject(Seq<char>),
    ListOccupants(Seq<char>),
    SweepProcesses(Seq<char>),
    Terminate(Seq<u32>),
    ForceRelease(Seq<char>),
    SmartEject(Seq<char>),
    Dismount(Seq<char>),
    Pause(u32),
    NotifyShell,
    RefreshVolumes,
    Finished,
}

impl View for Request {
    type V = RequestView;

    open spec fn view(&self) -> RequestView {
        match self {
            Request::Publish(state) => RequestView::Publish(state@),
            Request::QuickEject(drive) => RequestView::QuickEject(drive@),
            Request::ListOccupants(drive) => RequestView::ListOccupants(drive@),
            Request::SweepProcesses(drive) => RequestView::SweepProcesses(drive@),
            Request::Terminate(pids) => RequestView::Terminate(pids@),
            Request::ForceRelease(drive) => RequestView::ForceRelease(drive@),
            Request::SmartEject(drive) => RequestView::SmartEject(drive@),
            Request::Dismount(drive) => RequestView::Dismount(drive@),
            Request::Pause(ms) => RequestView::Pause(*ms),
            Request::NotifyShell => RequestView::NotifyShell,
            Request::RefreshVolumes => RequestView::RefreshVolumes,
            Request::Finished => RequestView::Finished,
        }
    }
}

/// How the last request went.
#[derive(Clone, Debug, PartialEq, Eq)]
pub enum Reply {
    /// Carried out; there is nothing to report.
    Ack,
    /// The eject, the dismount or the release succeeded.
    Succeeded,
    /// It failed, for this reason.
    Failed(Failure),
    /// The occupants that the listing found.
    Occupants(Vec<Occupant>),
}

/// The mathematical model of a [`Reply`].
pub enum ReplyView {
    Ack,
    Succeeded,
    Failed(FailureView),
    Occupants(Seq<OccupantView>),
}

impl View for Reply {
    type V = ReplyView;

    open spec fn view(&self) -> ReplyView {
        match self {
            Reply::Ack => ReplyView::Ack,
            Reply::Succeeded => ReplyView::Succeeded,
            Reply::Failed(f) => ReplyView::Failed(f@),
            Reply::Occupants(list) => ReplyView::Occupants(list.deep_view()),
        }
    }
}

/// Where a command stands: the request that is out, named after what the
/// command is doing.
#[derive(Clone, Copy, Debug, PartialEq, Eq)]
pub enum Phase {
    ScanAnnounced,
    ScanEjecting,
    ScanListing,
    ScanSweeping,
    KillAnnounced,
    KillTerminating,
    KillPausing,
    KillListing,
    KillEjectAnnounced,
    KillEjecting,
    ForceAnnounced,
    ForceReleasing,
    ForceTerminating,
    ForceSweeping,
    ForceTerminatingFound,
    ForcePausing,
    ForceEjecting,
    ForceDismounting,
    ForceSettling,
    ForceRetrying,
    ForceNotifying,
    ManualAnnounced,
    ManualDismounting,
    ManualEjectAnnounced,
    ManualSettling,
    ManualEjecting,
    ManualFailureShown,
    ManualListing,
    Reporting,
    ReportingBeforeRefresh,
    Refreshing,
    Finished,
}

/// The mathematical model of a [`Coordinator`].
pub struct CoordinatorView {
    /// Where the command stands.
    pub phase: Phase,
    /// The drive, in canonical form.
    pub drive: Seq<char>,
    /// The processes that the command named.
    pub pids: Seq<u32>,
    /// The occupants that the session reported to a scan.
    pub found: Seq<OccupantView>,
    /// Why the plain eject of a scan failed.
    pub failure: Option<FailureView>,
}

/// The failure that a reply reports: its own where it brings one, an
/// unknown failure without words where it reports no success.
pub open spec fn failure_in(r: ReplyView) -> FailureView {
    match r {
        ReplyView::Failed(f) => f,
        _ => FailureView::Unknown(Seq::empty()),
    }
}

/// The occupants that a reply reports: none where it is no listing.
pub open spec fn occupants_in(r: ReplyView) -> Seq<OccupantView> {
    match r {
        ReplyView::Occupants(list) => list,
        _ => Seq::empty(),
    }
}

/// The state that ends a command well or badly with a message.
pub open spec fn done(drive: Seq<char>, message: Seq<char>) -> RequestView {
    RequestView::Publish(EjectStateView::Done { drive: label_of(drive), message })
}

/// The state that ends a command with the occupants of the drive.
pub open spec fn occupied(drive: Seq<char>, list: Seq<OccupantView>) -> RequestView {
    RequestView::Publish(EjectStateView::Occupied { drive: label_of(drive), list })
}

/// The state and the first request of a command.
pub open spec fn begin_of(cmd: CommandView) -> (CoordinatorView, RequestView) {
    match cmd {
        CommandView::Scan(drive) => {
            let d = canonical(drive);
            (
                CoordinatorView {
                    phase: Phase::ScanAnnounced,
                    drive: d,
                    pids: Seq::empty(),
                    found: Seq::empty(),
                    failure: None,
                },
                RequestView::Publish(EjectStateView::Scanning(label_of(d))),
            )
        },
        CommandView::KillOne(pid, drive) => {
            let d = canonical(drive);
            (
                CoordinatorView {
                    phase: Phase::KillAnnounced,
                    drive: d,
                    pids: seq![pid],
                    found: Seq::empty(),
                    failure: None,
                },
                RequestView::Publish(EjectStateView::Scanning(terminating_text(d))),
            )
        },
        CommandView::ForceEject(drive, pids) => {
            let d = canonical(drive);
            (
                CoordinatorView {
                    phase: Phase::ForceAnnounced,
                    drive: d,
                    pids,
                    found: Seq::empty(),
                    failure: None,
                },
                RequestView::Publish(EjectStateView::Scanning(clearing_text(d))),
            )
        },
        CommandView::ManualDismount(drive) => {
            let d = canonical(drive);
            (
                CoordinatorView {
                    phase: Phase::ManualAnnounced,
                    drive: d,
                    pids: Seq::empty(),
                    found: Seq::empty(),
                    failure: None,
                },
                RequestView::Publish(EjectStateView::Scanning(dismounting_text(d))),
            )
        },
    }
}

/// The phase and the request that follow a reply.
pub open spec fn next_of(s: CoordinatorView, r: ReplyView) -> (Phase, RequestView) {
    let d = s.drive;
    let ok = r is Succeeded;
    match s.phase {
        Phase::ScanAnnounced => (Phase::ScanEjecting, RequestView::QuickEject(d)),
        Phase::ScanEjecting => if ok {
            (Phase::ReportingBeforeRefresh, done(d, ejected_text(d)))
        } else {
            (Phase::ScanListing, RequestView::ListOccupants(d))
        },
        Phase::ScanListing => (Phase::ScanSweeping, RequestView::SweepProcesses(d)),
        Phase::ScanSweeping => {
            let all = merged(s.found, occupants_in(r));
            if all.len() > 0 {
                (Phase::ReportingBeforeRefresh, occupied(d, all))
            } else {
                (
                    Phase::ReportingBeforeRefresh,
                    done(
                        d,
                        failure_text(
                            Attempt::Soft,
                            match s.failure {
                                Some(f) => f,
                                None => FailureView::Unknown(Seq::empty()),
                            },
                        ),
                    ),
                )
            }
        },
        Phase::KillAnnounced => (Phase::KillTerminating, RequestView::Terminate(s.pids)),
        Phase::KillTerminating => (Phase::KillPausing, RequestView::Pause(PAUSE_AFTER_KILL)),
        Phase::KillPausing => (Phase::KillListing, RequestView::ListOccupants(d)),
        Phase::KillListing => {
            let list = keep_first(occupants_in(r));
            if list.len() > 0 {
                (Phase::Reporting, occupied(d, list))
            } else {
                (
                    Phase::KillEjectAnnounced,
                    RequestView::Publish(EjectStateView::Ejecting(label_of(d))),
                )
            }
        },
        Phase::KillEjectAnnounced => (Phase::KillEjecting, RequestView::SmartEject(d)),
        Phase::KillEjecting => if ok {
            (Phase::ReportingBeforeRefresh, done(d, ejected_text(d)))
        } else {
            (Phase::ReportingBeforeRefresh, occupied(d, Seq::empty()))
        },
        Phase::ForceAnnounced => (Phase::ForceReleasing, RequestView::ForceRelease(d)),
        Phase::ForceReleasing => (Phase::ForceTerminating, RequestView::Terminate(s.pids)),
        Phase::ForceTerminating => (Phase::ForceSweeping, RequestView::SweepProcesses(d)),
        Phase::ForceSweeping => (
            Phase::ForceTerminatingFound,
            RequestView::Terminate(pids_of(occupants_in(r))),
        ),
        Phase::ForceTerminatingFound => (
            Phase::ForcePausing,
            RequestView::Pause(PAUSE_AFTER_CLEARING),
        ),
        Phase::ForcePausing => (Phase::ForceEjecting, RequestView::SmartEject(d)),
        Phase::ForceEjecting => if ok {
            (Phase::ForceNotifying, RequestView::NotifyShell)
        } else {
            (Phase::ForceDismounting, RequestView::Dismount(d))
        },
        Phase::ForceDismounting => (Phase::ForceSettling, RequestView::Pause(PAUSE_AFTER_DISMOUNT)),
        Phase::ForceSettling => (Phase::ForceRetrying, RequestView::SmartEject(d)),
        Phase::ForceRetrying => if ok {
            (Phase::ForceNotifying, RequestView::NotifyShell)
        } else {
            (
                Phase::ReportingBeforeRefresh,
                done(d, failure_text(Attempt::Forced, failure_in(r))),
            )
        },
        Phase::ForceNotifying => (Phase::ReportingBeforeRefresh, done(d, forced_text(d))),
        Phase::ManualAnnounced => (Phase::ManualDismounting, RequestView::Dismount(d)),
        Phase::ManualDismounting => if ok {
            (
                Phase::ManualEjectAnnounced,
                RequestView::Publish(EjectStateView::Ejecting(dismount_done_text(d))),
            )
        } else {
            (
                Phase::ReportingBeforeRefresh,
                done(d, failure_text(Attempt::Dismount, failure_in(r))),
            )
        },
        Phase::ManualEjectAnnounced => (
            Phase::ManualSettling,
            RequestView::Pause(PAUSE_AFTER_DISMOUNT),
        ),
        Phase::ManualSettling => (Phase::ManualEjecting, RequestView::SmartEject(d)),
        Phase::ManualEjecting => if ok {
            (Phase::ReportingBeforeRefresh, done(d, dismounted_text(d)))
        } else {
            (
                Phase::ManualFailureShown,
                done(d, failure_text(Attempt::AfterDismount, failure_in(r))),
            )
        },
        Phase::ManualFailureShown => (Phase::ManualListing, RequestView::ListOccupants(d)),
        Phase::ManualListing => (
            Phase::ReportingBeforeRefresh,
            occupied(d, keep_first(occupants_in(r))),
        ),
        Phase::Reporting => (Phase::Finished, RequestView::Finished),
        Phase::ReportingBeforeRefresh => (Phase::Refreshing, RequestView::RefreshVolumes),
        Phase::Refreshing => (Phase::Finished, RequestView::Finished),
        Phase::Finished => (Phase::Finished, RequestView::Finished),
    }
}

/// The state and the request that follow a reply: the phase moves on, a
/// scan remembers why its plain eject failed and whom the session
/// reported, and nothing else changes.
pub open spec fn step_of(s: CoordinatorView, r: ReplyView) -> (CoordinatorView, RequestView) {
    let (phase, request) = next_of(s, r);
    (
        CoordinatorView {
            phase,
            drive: s.drive,
            pids: s.pids,
            found: if s.phase == Phase::ScanListing {
                occupants_in(r)
            } else {
                s.found
            },
            failure: if s.phase == Phase::ScanEjecting && !(r is Succeeded) {
                Some(failure_in(r))
            } else {
                s.failure
            },
        },
        request,
    )
}

/// What the presentation layer saw last, by the phase a command is in.
pub enum Shown {
    /// The notice that a command has begun.
    Scanning,
    /// The notice that the drive is being ejected.
    Ejecting,
    /// A message that ends the command, with the occupants still to come.
    DoneBeforeOccupants,
    /// The state that ends the command.
    Terminal,
}

/// What the presentation layer saw last when a command is in `phase`.
pub open spec fn shown_in(phase: Phase) -> Shown {
    match phase {
        Phase::KillEjectAnnounced
        | Phase::KillEjecting
        | Phase::ManualEjectAnnounced
        | Phase::ManualSettling
        | Phase::ManualEjecting => Shown::Ejecting,
        Phase::ManualFailureShown | Phase::ManualListing => Shown::DoneBeforeOccupants,
        Phase::Reporting
        | Phase::ReportingBeforeRefresh
        | Phase::Refreshing
        | Phase::Finished => Shown::Terminal,
        _ => Shown::Scanning,
    }
}

/// The most requests that a command in `phase` can still hand out.
pub open spec fn requests_left(phase: Phase) -> nat {
    match phase {
        Phase::ScanAnnounced => 6,
        Phase::ScanEjecting => 5,
        Phase::ScanListing => 4,
        Phase::ScanSweeping => 3,
        Phase::KillAnnounced => 8,
        Phase::KillTerminating => 7,
        Phase::KillPausing => 6,
        Phase::KillListing => 5,
        Phase::KillEjectAnnounced => 4,
        Phase::KillEjecting => 3,
        Phase::ForceAnnounced => 13,
        Phase::ForceReleasing => 12,
        Phase::ForceTerminating => 11,
        Phase::ForceSweeping => 10,
        Phase::ForceTerminatingFound => 9,
        Phase::ForcePausing => 8,
        Phase::ForceEjecting => 7,
        Phase::ForceDismounting => 6,
        Phase::ForceSettling => 5,
        Phase::ForceRetrying => 4,
        Phase::ForceNotifying => 3,
        Phase::ManualAnnounced => 9,
        Phase::ManualDismounting => 8,
        Phase::ManualEjectAnnounced => 7,
        Phase::ManualSettling => 6,
        Phase::ManualEjecting => 5,
        Phase::ManualFailureShown => 4,
        Phase::ManualListing => 3,
        Phase::Reporting => 1,
        Phase::ReportingBeforeRefresh => 2,
        Phase::Refreshing => 1,
        Phase::Finished => 0,
    }
}

/// A message that the coordinator may end a command with: one of the three
/// messages of success, or the message of some failure.
pub open spec fn is_closing_message(drive: Seq<char>, message: Seq<char>) -> bool {
    ||| message == ejected_text(drive)
    ||| message == forced_text(drive)
    ||| message == dismounted_text(drive)
    ||| exists|attempt: Attempt, f: FailureView| message == failure_text(attempt, f)
}

/// Every command comes to its end, however the requests go: each reply
/// brings the command nearer to it, the last request is `Finished`, and no
/// command hands out more than fourteen requests.
pub proof fn lemma_every_command_ends(s: CoordinatorView, r: ReplyView)
    ensures
        s.phase != Phase::Finished ==> requests_left(step_of(s, r).0.phase) < requests_left(
            s.phase,
        ),
        step_of(s, r).1 is Finished <==> step_of(s, r).0.phase == Phase::Finished,
        requests_left(s.phase) <= 13,
{
}

/// A command is shown to begin, then perhaps to eject, and last to end: a
/// step shows `Scanning` never, `Ejecting` only after `Scanning`, a closing
/// `Done` or `Occupied` only while the command has not ended, and takes the
/// command to its end only after a terminal state was shown.
pub proof fn lemma_states_shown_in_order(s: CoordinatorView, r: ReplyView)
    ensures
        ({
            let (next, request) = step_of(s, r);
            match request {
                RequestView::Publish(EjectStateView::Idle) => false,
                RequestView::Publish(EjectStateView::Scanning(_)) => false,
                RequestView::Publish(EjectStateView::Ejecting(_)) => shown_in(s.phase)
                    is Scanning && shown_in(next.phase) is Ejecting,
                RequestView::Publish(EjectStateView::Done { .. }) => (shown_in(s.phase)
                    is Scanning || shown_in(s.phase) is Ejecting) && (shown_in(next.phase)
                    is Terminal || shown_in(next.phase) is DoneBeforeOccupants),
                RequestView::Publish(EjectStateView::Occupied { .. }) => !(shown_in(s.phase)
                    is Terminal) && shown_in(next.phase) is Terminal,
                RequestView::Finished => shown_in(s.phase) is Terminal,
                _ => shown_in(next.phase) == shown_in(s.phase),
            }
        }),
{
}

/// The first state that a command shows is `Scanning`.
pub proof fn lemma_command_begins_with_scanning(cmd: CommandView)
    ensures
        begin_of(cmd).1 matches RequestView::Publish(EjectStateView::Scanning(_)),
        shown_in(begin_of(cmd).0.phase) is Scanning,
        begin_of(cmd).0.drive == canonical(
            match cmd {
                CommandView::Scan(d) => d,
                CommandView::ForceEject(d, _) => d,
                CommandView::ManualDismount(d) => d,
                CommandView::KillOne(_, d) => d,
            },
        ),
{
}

/// A scan of a drive that the bus lets go at once shows `Scanning` and then
/// the message of success, and nothing else: no occupants are looked for,
/// and `Occupied` is never shown. The list of volumes is read anew before
/// the command ends.
pub proof fn lemma_scan_of_free_drive(
    drive: Seq<char>,
    r0: ReplyView,
    r2: ReplyView,
    r3: ReplyView,
)
    ensures
        ({
            let d = canonical(drive);
            let (s0, q0) = begin_of(CommandView::Scan(drive));
            let (s1, q1) = step_of(s0, r0);
            let (s2, q2) = step_of(s1, ReplyView::Succeeded);
            let (s3, q3) = step_of(s2, r2);
            let (s4, q4) = step_of(s3, r3);
            &&& q0 == RequestView::Publish(EjectStateView::Scanning(label_of(d)))
            &&& q1 == RequestView::QuickEject(d)
            &&& q2 == done(d, ejected_text(d))
            &&& q3 == RequestView::RefreshVolumes
            &&& q4 == RequestView::Finished
        }),
{
}

/// A scan whose plain eject failed shows the occupants that the session
/// and the sweep found, each process once; where they found nobody, it
/// shows the message of the failure.
pub proof fn lemma_scan_of_held_drive(
    drive: Seq<char>,
    f: FailureView,
    session: ReplyView,
    sweep: ReplyView,
    r0: ReplyView,
    r4: ReplyView,
    r5: ReplyView,
)
    ensures
        ({
            let d = canonical(drive);
            let all = merged(occupants_in(session), occupants_in(sweep));
            let (s0, q0) = begin_of(CommandView::Scan(drive));
            let (s1, q1) = step_of(s0, r0);
            let (s2, q2) = step_of(s1, ReplyView::Failed(f));
            let (s3, q3) = step_of(s2, session);
            let (s4, q4) = step_of(s3, sweep);
            let (s5, q5) = step_of(s4, r4);
            let (s6, q6) = step_of(s5, r5);
            &&& q0 == RequestView::Publish(EjectStateView::Scanning(label_of(d)))
            &&& q1 == RequestView::QuickEject(d)
            &&& q2 == RequestView::ListOccupants(d)
            &&& q3 == RequestView::SweepProcesses(d)
            &&& all.len() > 0 ==> q4 == occupied(d, all)
            &&& all.len() == 0 ==> q4 == done(d, failure_text(Attempt::Soft, f))
            &&& distinct_pids(all)
            &&& q5 == RequestView::RefreshVolumes
            &&& q6 == RequestView::Finished
        }),
{
    lemma_keep_first(occupants_in(session) + occupants_in(sweep));
}

/// A forced eject asks for the end of every process that the command
/// names and of every process that the sweep then finds, in that order and
/// whatever the replies before were: also where the command names none,
/// and where the release by the session failed.
pub proof fn lemma_force_terminates_named_and_found(
    drive: Seq<char>,
    pids: Seq<u32>,
    sweep: ReplyView,
    r0: ReplyView,
    r1: ReplyView,
    r2: ReplyView,
)
    ensures
        ({
            let d = canonical(drive);
            let (s0, q0) = begin_of(CommandView::ForceEject(drive, pids));
            let (s1, q1) = step_of(s0, r0);
            let (s2, q2) = step_of(s1, r1);
            let (s3, q3) = step_of(s2, r2);
            let (s4, q4) = step_of(s3, sweep);
            &&& q0 == RequestView::Publish(EjectStateView::Scanning(clearing_text(d)))
            &&& q1 == RequestView::ForceRelease(d)
            &&& q2 == RequestView::Terminate(pids)
            &&& q3 == RequestView::SweepProcesses(d)
            &&& q4 == RequestView::Terminate(pids_of(occupants_in(sweep)))
        }),
{
}

/// A refusal of the known kind is never shown in the platform's words:
/// whichever command it ends, the message is the advice to restart.
pub proof fn lemma_known_veto_ends_in_restart_advice(
    s: CoordinatorView,
    f: FailureView,
    sweep: ReplyView,
)
    requires
        known_veto(f),
    ensures
        s.phase == Phase::ForceRetrying ==> step_of(s, ReplyView::Failed(f)).1 == done(
            s.drive,
            failure_mark() + restart_advice(),
        ),
        s.phase == Phase::ManualDismounting ==> step_of(s, ReplyView::Failed(f)).1 == done(
            s.drive,
            failure_mark() + restart_advice(),
        ),
        s.phase == Phase::ManualEjecting ==> step_of(s, ReplyView::Failed(f)).1 == done(
            s.drive,
            failure_mark() + restart_advice(),
        ),
        s.phase == Phase::ScanSweeping && s.failure == Some(f) && merged(
            s.found,
            occupants_in(sweep),
        ).len() == 0 ==> step_of(s, sweep).1 == done(
            s.drive,
            failure_mark() + restart_advice(),
        ),
{
}

/// Whatever a step shows at the end of a command names the drive of the
/// command; a message is one of the three messages of success or the
/// message of a failure, and a list of occupants names each process once.
pub proof fn lemma_closing_states(s: CoordinatorView, r: ReplyView)
    ensures
        match step_of(s, r).1 {
            RequestView::Publish(EjectStateView::Done { drive, message }) => drive == label_of(
                s.drive,
            ) && is_closing_message(s.drive, message),
            RequestView::Publish(EjectStateView::Occupied { drive, list }) => drive == label_of(
                s.drive,
            ) && distinct_pids(list),
            _ => true,
        },
{
    lemma_keep_first(occupants_in(r));
    lemma_keep_first(s.found + occupants_in(r));
    let kept = match s.failure {
        Some(f) => f,
        None => FailureView::Unknown(Seq::empty()),
    };
    lemma_failure_text_closes(s.drive, Attempt::Soft, kept);
    lemma_failure_text_closes(s.drive, Attempt::Forced, failure_in(r));
    lemma_failure_text_closes(s.drive, Attempt::Dismount, failure_in(r));
    lemma_failure_text_closes(s.drive, Attempt::AfterDismount, failure_in(r));
}

/// The message of a failure is a message that may end a command.
proof fn lemma_failure_text_closes(drive: Seq<char>, attempt: Attempt, f: FailureView)
    ensures
        is_closing_message(drive, failure_text(attempt, f)),
{
}

/// The coordinator of one command.
#[derive(Clone, Debug, PartialEq, Eq)]
pub struct Coordinator {
    phase: Phase,
    drive: String,
    pids: Vec<u32>,
    found: Vec<Occupant>,
    failure: Option<Failure>,
}

impl View for Coordinator {
    type V = CoordinatorView;

    closed spec fn view(&self) -> CoordinatorView {
        CoordinatorView {
            phase: self.phase,
            drive: self.drive@,
            pids: self.pids@,
            found: self.found.deep_view(),
            failure: model_of(self.failure),
        }
    }
}

/// The failure that a reply reports.
fn failure_from(reply: Reply) -> (f: Failure)
    ensures
        f@ == failure_in(reply@),
{
    match reply {
        Reply::Failed(f) => f,
        _ => Failure::Unknown(String::new()),
    }
}

/// The occupants that a reply reports.
fn occupants_from(reply: Reply) -> (list: Vec<Occupant>)
    ensures
        list.deep_view() == occupants_in(reply@),
{
    match reply {
        Reply::Occupants(list) => list,
        _ => {
            let list: Vec<Occupant> = Vec::new();
            assert(list.deep_view() == Seq::<OccupantView>::empty());
            list
        },
    }
}

/// The occupants of a listing, each process once.
fn each_once(list: &Vec<Occupant>) -> (out: Vec<Occupant>)
    ensures
        out.deep_view() == keep_first(list.deep_view()),
{
    let none: Vec<Occupant> = Vec::new();
    assert(list.deep_view() + none.deep_view() == list.deep_view());
    merge_occupants(list, &none)
}

/// The request to show how a command ended.
fn show_done(drive: &str, message: String) -> (request: Request)
    ensures
        request@ == done(drive@, message@),
{
    Request::Publish(EjectState::Done { drive: drive_label(drive), message })
}

/// The request to show who holds the drive.
fn show_occupied(drive: &str, list: Vec<Occupant>) -> (request: Request)
    ensures
        request@ == occupied(drive@, list.deep_view()),
{
    Request::Publish(EjectState::Occupied { drive: drive_label(drive), list })
}

impl Coordinator {
    /// Takes a command up: the coordinator of the command, and its first
    /// request.
    pub fn begin(cmd: Command) -> (out: (Coordinator, Request))
        ensures
            (out.0@, out.1@) == begin_of(cmd@),
    {
        match cmd {
            Command::Scan(drive) => {
                let d = norm_drive(drive.as_str());
                let notice = drive_label(d.as_str());
                let found: Vec<Occupant> = Vec::new();
                assert(found.deep_view() == Seq::<OccupantView>::empty());
                (
                    Coordinator {
                        phase: Phase::ScanAnnounced,
                        drive: d,
                        pids: Vec::new(),
                        found,
                        failure: None,
                    },
                    Request::Publish(EjectState::Scanning(notice)),
                )
            },
            Command::KillOne(pid, drive) => {
                let d = norm_drive(drive.as_str());
                let notice = terminating_notice(d.as_str());
                let found: Vec<Occupant> = Vec::new();
                assert(found.deep_view() == Seq::<OccupantView>::empty());
                let mut pids: Vec<u32> = Vec::new();
                pids.push(pid);
                assert(pids@ == seq![pid]);
                (
                    Coordinator {
                        phase: Phase::KillAnnounced,
                        drive: d,
                        pids,
                        found,
                        failure: None,
                    },
                    Request::Publish(EjectState::Scanning(notice)),
                )
            },
            Command::ForceEject(drive, pids) => {
                let d = norm_drive(drive.as_str());
                let notice = clearing_notice(d.as_str());
                let found: Vec<Occupant> = Vec::new();
                assert(found.deep_view() == Seq::<OccupantView>::empty());
                (
                    Coordinator {
                        phase: Phase::ForceAnnounced,
                        drive: d,
                        pids,
                        found,
                        failure: None,
                    },
                    Request::Publish(EjectState::Scanning(notice)),
                )
            },
            Command::ManualDismount(drive) => {
                let d = norm_drive(drive.as_str());
                let notice = dismounting_notice(d.as_str());
                let found: Vec<Occupant> = Vec::new();
                assert(found.deep_view() == Seq::<OccupantView>::empty());
                (
                    Coordinator {
                        phase: Phase::ManualAnnounced,
                        drive: d,
                        pids: Vec::new(),
                        found,
                        failure: None,
                    },
                    Request::Publish(EjectState::Scanning(notice)),
                )
            },
        }
    }

    /// Whether the command has ended.
    pub fn is_finished(&self) -> (b: bool)
        ensures
            b == (self@.phase == Phase::Finished),
    {
        match self.phase {
            Phase::Finished => true,
            _ => false,
        }
    }

    /// The drive that the command is about, in canonical form.
    pub fn drive(&self) -> (d: &String)
        ensures
            d@ == self@.drive,
    {
        &self.drive
    }

    /// Takes the reply to the request that is out, and hands out the next
    /// request.
    pub fn step(self, reply: Reply) -> (out: (Coordinator, Request))
        ensures
            (out.0@, out.1@) == step_of(self@, reply@),
    {
        let ghost before = self@;
        let ghost answer = reply@;
        let Coordinator { phase, drive, pids, found, failure } = self;
        let ok = match &reply {
            Reply::Succeeded => true,
            _ => false,
        };
        let mut found = found;
        let mut failure = failure;
        let (next, request): (Phase, Request) = match phase {
            Phase::ScanAnnounced => (Phase::ScanEjecting, Request::QuickEject(drive.clone())),
            Phase::ScanEjecting => {
                if ok {
                    (
                        Phase::ReportingBeforeRefresh,
                        show_done(drive.as_str(), ejected_message(drive.as_str())),
                    )
                } else {
                    failure = Some(failure_from(reply));
                    (Phase::ScanListing, Request::ListOccupants(drive.clone()))
                }
            },
            Phase::ScanListing => {
                found = occupants_from(reply);
                (Phase::ScanSweeping, Request::SweepProcesses(drive.clone()))
            },
            Phase::ScanSweeping => {
                let sweep = occupants_from(reply);
                let all = merge_occupants(&found, &sweep);
                if all.len() > 0 {
                    (Phase::ReportingBeforeRefresh, show_occupied(drive.as_str(), all))
                } else {
                    let message = match &failure {
                        Some(f) => failure_message(Attempt::Soft, f),
                        None => failure_message(Attempt::Soft, &Failure::Unknown(String::new())),
                    };
                    (Phase::ReportingBeforeRefresh, show_done(drive.as_str(), message))
                }
            },
            Phase::KillAnnounced => (Phase::KillTerminating, Request::Terminate(copy_pids(&pids))),
            Phase::KillTerminating => (Phase::KillPausing, Request::Pause(PAUSE_AFTER_KILL)),
            Phase::KillPausing => (Phase::KillListing, Request::ListOccupants(drive.clone())),
            Phase::KillListing => {
                let listed = occupants_from(reply);
                let list = each_once(&listed);
                if list.len() > 0 {
                    (Phase::Reporting, show_occupied(drive.as_str(), list))
                } else {
                    (
                        Phase::KillEjectAnnounced,
                        Request::Publish(EjectState::Ejecting(drive_label(drive.as_str()))),
                    )
                }
            },
            Phase::KillEjectAnnounced => (Phase::KillEjecting, Request::SmartEject(drive.clone())),
            Phase::KillEjecting => {
                if ok {
                    (
                        Phase::ReportingBeforeRefresh,
                        show_done(drive.as_str(), ejected_message(drive.as_str())),
                    )
                } else {
                    let nobody: Vec<Occupant> = Vec::new();
                    assert(nobody.deep_view() == Seq::<OccupantView>::empty());
                    (Phase::ReportingBeforeRefresh, show_occupied(drive.as_str(), nobody))
                }
            },
            Phase::ForceAnnounced => (Phase::ForceReleasing, Request::ForceRelease(drive.clone())),
            Phase::ForceReleasing => (
                Phase::ForceTerminating,
                Request::Terminate(copy_pids(&pids)),
            ),
            Phase::ForceTerminating => (
                Phase::ForceSweeping,
                Request::SweepProcesses(drive.clone()),
            ),
            Phase::ForceSweeping => {
                let sweep = occupants_from(reply);
                (Phase::ForceTerminatingFound, Request::Terminate(occupant_pids(&sweep)))
            },
            Phase::ForceTerminatingFound => (
                Phase::ForcePausing,
                Request::Pause(PAUSE_AFTER_CLEARING),
            ),
            Phase::ForcePausing => (Phase::ForceEjecting, Request::SmartEject(drive.clone())),
            Phase::ForceEjecting => {
                if ok {
                    (Phase::ForceNotifying, Request::NotifyShell)
                } else {
                    (Phase::ForceDismounting, Request::Dismount(drive.clone()))
                }
            },
            Phase::ForceDismounting => (
                Phase::ForceSettling,
                Request::Pause(PAUSE_AFTER_DISMOUNT),
            ),
            Phase::ForceSettling => (Phase::ForceRetrying, Request::SmartEject(drive.clone())),
            Phase::ForceRetrying => {
                if ok {
                    (Phase::ForceNotifying, Request::NotifyShell)
                } else {
                    let f = failure_from(reply);
                    (
                        Phase::ReportingBeforeRefresh,
                        show_done(drive.as_str(), failure_message(Attempt::Forced, &f)),
                    )
                }
            },
            Phase::ForceNotifying => (
                Phase::ReportingBeforeRefresh,
                show_done(drive.as_str(), forced_message(drive.as_str())),
            ),
            Phase::ManualAnnounced => (Phase::ManualDismounting, Request::Dismount(drive.clone())),
            Phase::ManualDismounting => {
                if ok {
                    (
                        Phase::ManualEjectAnnounced,
                        Request::Publish(EjectState::Ejecting(dismount_done_notice(drive.as_str()))),
                    )
                } else {
                    let f = failure_from(reply);
                    (
                        Phase::ReportingBeforeRefresh,
                        show_done(drive.as_str(), failure_message(Attempt::Dismount, &f)),
                    )
                }
            },
            Phase::ManualEjectAnnounced => (
                Phase::ManualSettling,
                Request::Pause(PAUSE_AFTER_DISMOUNT),
            ),
            Phase::ManualSettling => (Phase::ManualEjecting, Request::SmartEject(drive.clone())),
            Phase::ManualEjecting => {
                if ok {
                    (
                        Phase::ReportingBeforeRefresh,
                        show_done(drive.as_str(), dismounted_message(drive.as_str())),
                    )
                } else {
                    let f = failure_from(reply);
                    (
                        Phase::ManualFailureShown,
                        show_done(drive.as_str(), failure_message(Attempt::AfterDismount, &f)),
                    )
                }
            },
            Phase::ManualFailureShown => (
                Phase::ManualListing,
                Request::ListOccupants(drive.clone()),
            ),
            Phase::ManualListing => {
                let listed = occupants_from(reply);
                (
                    Phase::ReportingBeforeRefresh,
                    show_occupied(drive.as_str(), each_once(&listed)),
                )
            },
            Phase::Reporting => (Phase::Finished, Request::Finished),
            Phase::ReportingBeforeRefresh => (Phase::Refreshing, Request::RefreshVolumes),
            Phase::Refreshing => (Phase::Finished, Request::Finished),
            Phase::Finished => (Phase::Finished, Request::Finished),
        };
        (Coordinator { phase: next, drive, pids, found, failure }, request)
    }
}

/// A copy of a list of process ids.
pub fn copy_pids(pids: &Vec<u32>) -> (out: Vec<u32>)
    ensures
        out@ == pids@,
{
    let mut out: Vec<u32> = Vec::new();
    let mut i: usize = 0;
    while i < pids.len()
        invariant
            i <= pids.len(),
            out@ == pids@.subrange(0, i as int),
        decreases pids.len() - i,
    {
        out.push(pids[i]);
        i = i + 1;
    }
    assert(pids@.subrange(0, pids.len() as int) == pids@);
    out
}

} // verus!
