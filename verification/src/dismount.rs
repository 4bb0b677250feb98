//! The dismount by the platform's own utility, and the flush that goes
//! before it. The volume is opened, flushed and closed as far as that
//! goes, so that no data is lost; then the utility is run, and what it
//! answered is read: a volume that was not mounted counts as dismounted.
//!
//! Nothing is performed here: one request is handed out at a time, and the
//! reply taken. A reply that does not answer the request counts as its
//! failure.

use vstd::prelude::*;
use vstd::string::StringExecFns;
use crate::drive::{
    device_path, device_path_of, drive_label, label_of, trim_drive, trim_separators,
};
use crate::failure::{class_of_text, model_of, Failure, FailureView};
use crate::text::{contains, join, occurs};

verus! {

/// What the volume is opened for.
#[derive(Clone, Copy, Debug, PartialEq, Eq)]
pub enum Goal {
    /// To flush its buffers, and no more.
    Flush,
    /// To flush its buffers and have the utility dismount it.
    Dismount,
}

/// What the caller is to do next.
#[derive(Clone, Debug, PartialEq, Eq)]
pub enum DismountRequest {
    /// Open the volume at this path for reading and writing.
    OpenVolume(String),
    /// Flush the buffers of the open volume.
    Flush,
    /// Close the volume.
    Close,
    /// Run `fsutil` with these arguments, without a window, and wait for it
    /// to end.
    RunUtility(Vec<String>),
    /// It is over: with nothing where the volume is dismounted or the flush
    /// was all that was asked, with the failure otherwise.
    Finished(Option<Failure>),
}

/// The mathematical model of a [`DismountRequest`].
pub enum DismountRequestView {
    OpenVolume(Seq<char>),
    Flush,
    Close,
    RunUtility(Seq<Seq<char>>),
    Finished(Option<FailureView>),
}

impl View for DismountRequest {
    type V = DismountRequestView;

    open spec fn view(&self) -> DismountRequestView {
        match self {
            DismountRequest::OpenVolume(path) => DismountRequestView::OpenVolume(path@),
            DismountRequest::Flush => DismountRequestView::Flush,
            DismountRequest::Close => DismountRequestView::Close,
            DismountRequest::RunUtility(args) => DismountRequestView::RunUtility(
                args.deep_view(),
            ),
            DismountRequest::Finished(f) => DismountRequestView::Finished(model_of(*f)),
        }
    }
}

/// How the last request went.
#[derive(Clone, Debug, PartialEq, Eq)]
pub enum DismountReply {
    /// Carried out; there is nothing to report.
    Ack,
    /// The volume is open.
    Opened,
    /// The utility ran and ended: whether it reported success, and what it
    /// wrote to its error stream.
    Exited { success: bool, errors: String },
    /// The utility could not be started, for this reason.
    NotStarted(String),
}

/// The mathematical model of a [`DismountReply`].
pub enum DismountReplyView {
    Ack,
    Opened,
    Exited { success: bool, errors: Seq<char> },
    NotStarted(Seq<char>),
}

impl View for DismountReply {
    type V = DismountReplyView;

    open spec fn view(&self) -> DismountReplyView {
        match self {
            DismountReply::Ack => DismountReplyView::Ack,
            DismountReply::Opened => DismountReplyView::Opened,
            DismountReply::Exited { success, errors } => DismountReplyView::Exited {
                success: *success,
                errors: errors@,
            },
            DismountReply::NotStarted(reason) => DismountReplyView::NotStarted(reason@),
        }
    }
}

/// Where the dismount stands: the request that is out.
#[derive(Clone, Copy, Debug, PartialEq, Eq)]
pub enum DismountPhase {
    Opening,
    Flushing,
    Closing,
    Running,
    Finished,
}

/// The mathematical model of a [`VolumeDismount`].
pub struct VolumeDismountView {
    /// The drive, without the separators that trailed it.
    pub drive: Seq<char>,
    /// What the volume is opened for.
    pub goal: Goal,
    /// Where the dismount stands.
    pub phase: DismountPhase,
    /// How it ended.
    pub result: Option<FailureView>,
}

/// The arguments with which the utility dismounts a drive.
pub open spec fn utility_arguments(drive: Seq<char>) -> Seq<Seq<char>> {
    seq!["volume"@, "dismount"@, label_of(drive)]
}

/// The words of the utility say that the volume was not mounted.
pub open spec fn says_not_mounted(errors: Seq<char>) -> bool {
    occurs(errors, "没有装载"@) || occurs(errors, "not mounted"@)
}

/// What the answer of the utility means: nothing where the volume is
/// dismounted now, a failure otherwise. The utility succeeded, or failed
/// on a volume that was not mounted: the volume is dismounted. Any other
/// failure is classified by its words, and a utility that could not be
/// started by the reason.
pub open spec fn reading_of(r: DismountReplyView) -> Option<FailureView> {
    match r {
        DismountReplyView::Exited { success, errors } => if success || says_not_mounted(errors) {
            None
        } else {
            Some(class_of_text(errors))
        },
        DismountReplyView::NotStarted(reason) => Some(
            FailureView::Unknown("无法启动 fsutil: "@ + reason),
        ),
        _ => Some(FailureView::Unknown(Seq::empty())),
    }
}

/// The dismount and its first request.
pub open spec fn dismount_begin_of(drive: Seq<char>, goal: Goal) -> (
    VolumeDismountView,
    DismountRequestView,
) {
    let d = trim_separators(drive);
    (
        VolumeDismountView { drive: d, goal, phase: DismountPhase::Opening, result: None },
        DismountRequestView::OpenVolume(device_path_of(d)),
    )
}

/// What follows the flush: the utility, or the end where the flush was all
/// that was asked.
pub open spec fn after_flush(s: VolumeDismountView) -> (VolumeDismountView, DismountRequestView) {
    match s.goal {
        Goal::Flush => (
            VolumeDismountView { phase: DismountPhase::Finished, result: None, ..s },
            DismountRequestView::Finished(None),
        ),
        Goal::Dismount => (
            VolumeDismountView { phase: DismountPhase::Running, ..s },
            DismountRequestView::RunUtility(utility_arguments(s.drive)),
        ),
    }
}

/// The dismount and the request that follow a reply.
pub open spec fn dismount_step_of(s: VolumeDismountView, r: DismountReplyView) -> (
    VolumeDismountView,
    DismountRequestView,
) {
    match s.phase {
        DismountPhase::Opening => if r is Opened {
            (VolumeDismountView { phase: DismountPhase::Flushing, ..s }, DismountRequestView::Flush)
        } else {
            after_flush(s)
        },
        DismountPhase::Flushing => (
            VolumeDismountView { phase: DismountPhase::Closing, ..s },
            DismountRequestView::Close,
        ),
        DismountPhase::Closing => after_flush(s),
        DismountPhase::Running => (
            VolumeDismountView { phase: DismountPhase::Finished, result: reading_of(r), ..s },
            DismountRequestView::Finished(reading_of(r)),
        ),
        DismountPhase::Finished => (s, DismountRequestView::Finished(s.result)),
    }
}

/// The flush never stands in the way: the utility is run whether or not
/// the volume could be opened and flushed, a volume that was opened is
/// closed before the utility runs, and a flush alone never fails.
pub proof fn lemma_flush_is_best_effort(s: VolumeDismountView, r: DismountReplyView)
    ensures
        ({
            let (next, request) = dismount_step_of(s, r);
            &&& s.phase is Opening && !(r is Opened) && s.goal is Dismount ==> request
                == DismountRequestView::RunUtility(utility_arguments(s.drive))
            &&& s.phase is Flushing ==> request is Close
            &&& s.phase is Closing && s.goal is Dismount ==> request
                == DismountRequestView::RunUtility(utility_arguments(s.drive))
            &&& request is Close ==> s.phase is Flushing
            &&& request is RunUtility ==> s.phase is Opening || s.phase is Closing
            &&& s.goal is Flush ==> !(request is RunUtility)
            &&& s.goal is Flush && !(s.phase is Running) && s.result is None ==> next.result
                is None
        }),
{
}

/// The dismount of one volume by the platform's utility.
#[derive(Clone, Debug, PartialEq, Eq)]
pub struct VolumeDismount {
    drive: String,
    goal: Goal,
    phase: DismountPhase,
    result: Option<Failure>,
}

impl View for VolumeDismount {
    type V = VolumeDismountView;

    closed spec fn view(&self) -> VolumeDismountView {
        VolumeDismountView {
            drive: self.drive@,
            goal: self.goal,
            phase: self.phase,
            result: model_of(self.result),
        }
    }
}

/// Begins the flush of a drive's buffers.
pub fn try_flush(drive: &str) -> (out: (VolumeDismount, DismountRequest))
    ensures
        (out.0@, out.1@) == dismount_begin_of(drive@, Goal::Flush),
{
    VolumeDismount::begin(drive, Goal::Flush)
}

/// Begins the dismount of a drive by the platform's utility.
pub fn eject_by_fsutil(drive_letter: &str) -> (out: (VolumeDismount, DismountRequest))
    ensures
        (out.0@, out.1@) == dismount_begin_of(drive_letter@, Goal::Dismount),
{
    VolumeDismount::begin(drive_letter, Goal::Dismount)
}

/// Reads the answer of the utility.
pub fn read_utility_answer(reply: &DismountReply) -> (f: Option<Failure>)
    ensures
        model_of(f) == reading_of(reply@),
{
    match reply {
        DismountReply::Exited { success, errors } => {
            if *success || contains(errors.as_str(), "没有装载") || contains(
                errors.as_str(),
                "not mounted",
            ) {
                None
            } else {
                Some(Failure::from_text(errors.as_str()))
            }
        },
        DismountReply::NotStarted(reason) => Some(
            Failure::Unknown(join("无法启动 fsutil: ", reason.as_str())),
        ),
        _ => Some(Failure::Unknown(String::new())),
    }
}

/// The arguments with which the utility dismounts a drive.
pub fn dismount_arguments(drive: &str) -> (args: Vec<String>)
    ensures
        args.deep_view() == utility_arguments(drive@),
{
    let mut args: Vec<String> = Vec::new();
    args.push(String::from_str("volume"));
    args.push(String::from_str("dismount"));
    args.push(drive_label(drive));
    assert(args.deep_view() == utility_arguments(drive@));
    args
}

impl VolumeDismount {
    /// Begins the flush or the dismount of a drive.
    pub fn begin(drive: &str, goal: Goal) -> (out: (VolumeDismount, DismountRequest))
        ensures
            (out.0@, out.1@) == dismount_begin_of(drive@, goal),
    {
        let d = trim_drive(drive);
        let path = device_path(d.as_str());
        (
            VolumeDismount { drive: d, goal, phase: DismountPhase::Opening, result: None },
            DismountRequest::OpenVolume(path),
        )
    }

    /// Whether it is over.
    pub fn is_finished(&self) -> (b: bool)
        ensures
            b == (self@.phase is Finished),
    {
        match self.phase {
            DismountPhase::Finished => true,
            _ => false,
        }
    }

    /// Goes on after the flush.
    fn flushed(self) -> (out: (VolumeDismount, DismountRequest))
        ensures
            (out.0@, out.1@) == after_flush(self@),
    {
        match self.goal {
            Goal::Flush => (
                VolumeDismount {
                    drive: self.drive,
                    goal: self.goal,
                    phase: DismountPhase::Finished,
                    result: None,
                },
                DismountRequest::Finished(None),
            ),
            Goal::Dismount => {
                let args = dismount_arguments(self.drive.as_str());
                (
                    VolumeDismount {
                        drive: self.drive,
                        goal: self.goal,
                        phase: DismountPhase::Running,
                        result: self.result,
                    },
                    DismountRequest::RunUtility(args),
                )
            },
        }
    }

    /// Takes the reply to the request that is out, and hands out the next
    /// request.
    pub fn step(self, reply: DismountReply) -> (out: (VolumeDismount, DismountRequest))
        ensures
            (out.0@, out.1@) == dismount_step_of(self@, reply@),
    {
        match self.phase {
            DismountPhase::Opening => match reply {
                DismountReply::Opened => (
                    VolumeDismount {
                        drive: self.drive,
                        goal: self.goal,
                        phase: DismountPhase::Flushing,
                        result: self.result,
                    },
                    DismountRequest::Flush,
                ),
                _ => self.flushed(),
            },
            DismountPhase::Flushing => (
                VolumeDismount {
                    drive: self.drive,
                    goal: self.goal,
                    phase: DismountPhase::Closing,
                    result: self.result,
                },
                DismountRequest::Close,
            ),
            DismountPhase::Closing => self.flushed(),
            DismountPhase::Running => {
                let result = read_utility_answer(&reply);
                let shown = read_utility_answer(&reply);
                (
                    VolumeDismount {
                        drive: self.drive,
                        goal: self.goal,
                        phase: DismountPhase::Finished,
                        result,
                    },
                    DismountRequest::Finished(shown),
                )
            },
            DismountPhase::Finished => {
                let shown = match &self.result {
                    Some(f) => Some(f.duplicate()),
                    None => None,
                };
                (self, DismountRequest::Finished(shown))
            },
        }
    }
}

} // verus!
