//! The smart eject: the ordered protocol that takes a volume off the
//! machine. The volume is opened, asked for the identity of its device,
//! flushed, locked, dismounted and closed, each step whether or not the one
//! before it worked; only then is the bus asked to remove the device.
//!
//! The quick eject is the same protocol cut down to the removal: the
//! volume is opened for its identity and closed, and the bus is asked
//! once.
//!
//! The protocol performs nothing itself: it hands out one request at a
//! time and takes the reply. A reply that does not answer the request
//! counts as its failure.

use vstd::prelude::*;
use crate::drive::{device_path, device_path_of, trim_drive, trim_separators};
use crate::failure::{class_of_open_error, model_of, Failure, FailureView};
use crate::hardware::DeviceIdentity;

verus! {

/// How often the volume is asked for its lock.
pub const LOCK_ATTEMPTS: u8 = 5;

/// The pause after a refused lock, in milliseconds.
pub const LOCK_BACKOFF: u32 = 100;

/// The pause that lets the platform release the closed volume, in
/// milliseconds.
pub const SETTLE_PAUSE: u32 = 500;

/// How often a refused removal is tried again.
pub const EJECT_RETRIES: u8 = 3;

/// The pause before a removal is tried again, in milliseconds.
pub const RETRY_PAUSE: u32 = 500;

/// How much of the protocol is run.
#[derive(Clone, Copy, Debug, PartialEq, Eq)]
pub enum Depth {
    /// The removal alone: nothing is flushed, locked or dismounted, nothing
    /// is waited for, and a refused removal is not tried again.
    Quick,
    /// The whole protocol.
    Full,
}

/// What the caller is to do next.
#[derive(Clone, Debug, PartialEq, Eq)]
pub enum SmartRequest {
    /// Open the volume at this path for reading and writing.
    OpenVolume(String),
    /// Ask the open volume for the number and the type of its device.
    QueryIdentity,
    /// Flush the buffers of the open volume.
    Flush,
    /// Ask for the lock of the open volume.
    Lock,
    /// Dismount the open volume.
    Dismount,
    /// Close the volume.
    Close,
    /// Wait this many milliseconds.
    Pause(u32),
    /// Find the device with this identity and have the bus remove it.
    HardwareEject(DeviceIdentity),
    /// Have the drive with this letter removed, without its identity.
    EjectByLetter(String),
    /// The protocol has ended: with nothing for a removal, with the failure
    /// otherwise.
    Finished(Option<Failure>),
}

/// The mathematical model of a [`SmartRequest`].
pub enum SmartRequestView {
    OpenVolume(Seq<char>),
    QueryIdentity,
    Flush,
    Lock,
    Dismount,
    Close,
    Pause(u32),
    HardwareEject(DeviceIdentity),
    EjectByLetter(Seq<char>),
    Finished(Option<FailureView>),
}

impl View for SmartRequest {
    type V = SmartRequestView;

    open spec fn view(&self) -> SmartRequestView {
        match self {
            SmartRequest::OpenVolume(path) => SmartRequestView::OpenVolume(path@),
            SmartRequest::QueryIdentity => SmartRequestView::QueryIdentity,
            SmartRequest::Flush => SmartRequestView::Flush,
            SmartRequest::Lock => SmartRequestView::Lock,
            SmartRequest::Dismount => SmartRequestView::Dismount,
            SmartRequest::Close => SmartRequestView::Close,
            SmartRequest::Pause(ms) => SmartRequestView::Pause(*ms),
            SmartRequest::HardwareEject(id) => SmartRequestView::HardwareEject(*id),
            SmartRequest::EjectByLetter(drive) => SmartRequestView::EjectByLetter(drive@),
            SmartRequest::Finished(f) => SmartRequestView::Finished(model_of(*f)),
        }
    }
}

/// How the last request went.
#[derive(Clone, Debug, PartialEq, Eq)]
pub enum SmartReply {
    /// Carried out; there is nothing to report.
    Ack,
    /// The volume is open.
    Opened,
    /// The volume could not be opened; this is the platform's code.
    OpenFailed(u32),
    /// The identity of the device, where the volume told it.
    Identity(Option<DeviceIdentity>),
    /// Whether the flush, the lock or the dismount worked.
    Worked(bool),
    /// The device was removed.
    Removed,
    /// The removal failed, for this reason.
    Failed(Failure),
}

/// The mathematical model of a [`SmartReply`].
pub enum SmartReplyView {
    Ack,
    Opened,
    OpenFailed(u32),
    Identity(Option<DeviceIdentity>),
    Worked(bool),
    Removed,
    Failed(FailureView),
}

impl View for SmartReply {
    type V = SmartReplyView;

    open spec fn view(&self) -> SmartReplyView {
        match self {
            SmartReply::Ack => SmartReplyView::Ack,
            SmartReply::Opened => SmartReplyView::Opened,
            SmartReply::OpenFailed(code) => SmartReplyView::OpenFailed(*code),
            SmartReply::Identity(id) => SmartReplyView::Identity(*id),
            SmartReply::Worked(b) => SmartReplyView::Worked(*b),
            SmartReply::Removed => SmartReplyView::Removed,
            SmartReply::Failed(f) => SmartReplyView::Failed(f@),
        }
    }
}

/// Where the protocol stands: the request that is out.
#[derive(Clone, Copy, Debug, PartialEq, Eq)]
pub enum SmartPhase {
    Opening,
    QueryingIdentity,
    Flushing,
    Locking,
    LockBackoff,
    Dismounting,
    Closing,
    Settling,
    Ejecting,
    RetryPause,
    LetterEjecting,
    Finished,
}

/// The mathematical model of a [`SmartEject`].
pub struct SmartEjectView {
    /// The drive, without the separators that trailed it.
    pub drive: Seq<char>,
    /// How much of the protocol is run.
    pub depth: Depth,
    /// Where the protocol stands.
    pub phase: SmartPhase,
    /// The identity of the device, once the volume has told it.
    pub identity: Option<DeviceIdentity>,
    /// How often the lock has been asked for.
    pub locks: u8,
    /// How often the removal has been tried again.
    pub retries: u8,
    /// How the protocol ended.
    pub result: Option<FailureView>,
}

/// Why the volume could not be opened, by the reply.
pub open spec fn open_failure_in(r: SmartReplyView) -> FailureView {
    match r {
        SmartReplyView::OpenFailed(code) => class_of_open_error(code),
        _ => FailureView::NotFound,
    }
}

/// Why the removal failed, by the reply.
pub open spec fn removal_failure_in(r: SmartReplyView) -> FailureView {
    match r {
        SmartReplyView::Failed(f) => f,
        _ => FailureView::Unknown(Seq::empty()),
    }
}

/// The end of the protocol with this result.
pub open spec fn finish(s: SmartEjectView, result: Option<FailureView>) -> (
    SmartEjectView,
    SmartRequestView,
) {
    (SmartEjectView { phase: SmartPhase::Finished, result, ..s }, SmartRequestView::Finished(result))
}

/// The request for the removal: by the identity of the device where the
/// volume told it, by the letter otherwise.
pub open spec fn ask_removal(s: SmartEjectView) -> (SmartEjectView, SmartRequestView) {
    match s.identity {
        Some(id) => (
            SmartEjectView { phase: SmartPhase::Ejecting, ..s },
            SmartRequestView::HardwareEject(id),
        ),
        None => (
            SmartEjectView { phase: SmartPhase::LetterEjecting, ..s },
            SmartRequestView::EjectByLetter(s.drive),
        ),
    }
}

/// The protocol and its first request.
pub open spec fn smart_begin_of(drive: Seq<char>, depth: Depth) -> (
    SmartEjectView,
    SmartRequestView,
) {
    let d = trim_separators(drive);
    (
        SmartEjectView {
            drive: d,
            depth,
            phase: SmartPhase::Opening,
            identity: None,
            locks: 0,
            retries: 0,
            result: None,
        },
        SmartRequestView::OpenVolume(device_path_of(d)),
    )
}

/// The protocol and the request that follow a reply.
pub open spec fn smart_step_of(s: SmartEjectView, r: SmartReplyView) -> (
    SmartEjectView,
    SmartRequestView,
) {
    match s.phase {
        SmartPhase::Opening => if r is Opened {
            (
                SmartEjectView { phase: SmartPhase::QueryingIdentity, ..s },
                SmartRequestView::QueryIdentity,
            )
        } else {
            finish(s, Some(open_failure_in(r)))
        },
        SmartPhase::QueryingIdentity => {
            let identity = match r {
                SmartReplyView::Identity(id) => id,
                _ => None,
            };
            match s.depth {
                Depth::Full => (
                    SmartEjectView { phase: SmartPhase::Flushing, identity, ..s },
                    SmartRequestView::Flush,
                ),
                Depth::Quick => (
                    SmartEjectView { phase: SmartPhase::Closing, identity, ..s },
                    SmartRequestView::Close,
                ),
            }
        },
        SmartPhase::Flushing => (
            SmartEjectView { phase: SmartPhase::Locking, locks: 1, ..s },
            SmartRequestView::Lock,
        ),
        SmartPhase::Locking => if r == SmartReplyView::Worked(true) {
            (SmartEjectView { phase: SmartPhase::Dismounting, ..s }, SmartRequestView::Dismount)
        } else {
            (
                SmartEjectView { phase: SmartPhase::LockBackoff, ..s },
                SmartRequestView::Pause(LOCK_BACKOFF),
            )
        },
        SmartPhase::LockBackoff => if s.locks < LOCK_ATTEMPTS {
            (
                SmartEjectView { phase: SmartPhase::Locking, locks: (s.locks + 1) as u8, ..s },
                SmartRequestView::Lock,
            )
        } else {
            (SmartEjectView { phase: SmartPhase::Dismounting, ..s }, SmartRequestView::Dismount)
        },
        SmartPhase::Dismounting => (
            SmartEjectView { phase: SmartPhase::Closing, ..s },
            SmartRequestView::Close,
        ),
        SmartPhase::Closing => match s.depth {
            Depth::Full => (
                SmartEjectView { phase: SmartPhase::Settling, ..s },
                SmartRequestView::Pause(SETTLE_PAUSE),
            ),
            Depth::Quick => ask_removal(s),
        },
        SmartPhase::Settling => ask_removal(s),
        SmartPhase::Ejecting => if r is Removed {
            finish(s, None)
        } else if s.depth is Full && s.retries < EJECT_RETRIES {
            (
                SmartEjectView {
                    phase: SmartPhase::RetryPause,
                    retries: (s.retries + 1) as u8,
                    ..s
                },
                SmartRequestView::Pause(RETRY_PAUSE),
            )
        } else {
            finish(s, Some(removal_failure_in(r)))
        },
        SmartPhase::RetryPause => ask_removal(s),
        SmartPhase::LetterEjecting => if r is Removed {
            finish(s, None)
        } else {
            finish(s, Some(removal_failure_in(r)))
        },
        SmartPhase::Finished => (s, SmartRequestView::Finished(s.result)),
    }
}

/// The volume is open while the protocol is in `phase`.
pub open spec fn volume_is_open(phase: SmartPhase) -> bool {
    phase is QueryingIdentity || phase is Flushing || phase is Locking || phase is LockBackoff
        || phase is Dismounting
}

/// How much of the protocol is run never changes, nor does the drive.
pub proof fn lemma_protocol_keeps_its_depth(s: SmartEjectView, r: SmartReplyView)
    ensures
        smart_step_of(s, r).0.depth == s.depth,
        smart_step_of(s, r).0.drive == s.drive,
{
}

/// The quick eject asks for the removal alone: the volume is opened for
/// its identity and closed again, nothing is flushed, locked or dismounted,
/// nothing is waited for, and the bus is asked once.
pub proof fn lemma_quick_eject_is_the_removal_alone(s: SmartEjectView, r: SmartReplyView)
    requires
        s.depth is Quick,
    ensures
        ({
            let (next, request) = smart_step_of(s, r);
            &&& s.phase is Opening && r is Opened ==> request is QueryIdentity
            &&& s.phase is QueryingIdentity ==> request is Close
            &&& s.phase is Closing ==> request is HardwareEject || request is EjectByLetter
            &&& s.phase is Ejecting || s.phase is LetterEjecting ==> request is Finished
            &&& s.phase is Opening || s.phase is QueryingIdentity || s.phase is Closing
                ==> !(request is Flush) && !(request is Lock) && !(request is Dismount)
                && !(request is Pause)
        }),
{
}

/// The place of a phase in the order of the protocol.
pub open spec fn order_of(phase: SmartPhase) -> nat {
    match phase {
        SmartPhase::Opening => 0,
        SmartPhase::QueryingIdentity => 1,
        SmartPhase::Flushing => 2,
        SmartPhase::Locking => 3,
        SmartPhase::LockBackoff => 3,
        SmartPhase::Dismounting => 4,
        SmartPhase::Closing => 5,
        SmartPhase::Settling => 6,
        SmartPhase::Ejecting => 7,
        SmartPhase::RetryPause => 7,
        SmartPhase::LetterEjecting => 7,
        SmartPhase::Finished => 8,
    }
}

/// No step is left out. Only a volume that cannot be opened ends the
/// protocol early; from then on each step is followed by the next one of
/// the order, whatever the reply: the flush, the lock, the dismount, the
/// closing and the pause are asked for also where the step before failed.
pub proof fn lemma_no_step_is_skipped(s: SmartEjectView, r: SmartReplyView)
    requires
        s.depth is Full,
    ensures
        ({
            let (next, request) = smart_step_of(s, r);
            &&& s.phase is Opening ==> if r is Opened {
                request is QueryIdentity
            } else {
                request == SmartRequestView::Finished(Some(open_failure_in(r)))
            }
            &&& s.phase is QueryingIdentity ==> request is Flush
            &&& s.phase is Flushing ==> request is Lock
            &&& s.phase is Locking ==> request is Dismount || request
                == SmartRequestView::Pause(LOCK_BACKOFF)
            &&& s.phase is LockBackoff ==> request is Dismount || request is Lock
            &&& s.phase is Dismounting ==> request is Close
            &&& s.phase is Closing ==> request == SmartRequestView::Pause(SETTLE_PAUSE)
            &&& s.phase is Settling ==> request is HardwareEject || request is EjectByLetter
            &&& order_of(s.phase) <= order_of(next.phase) <= order_of(s.phase) + 1
                || (s.phase is Opening && next.phase is Finished)
        }),
{
}

/// The volume is closed once on every way out, and before the bus is
/// asked: while the volume is open a step keeps it open or asks to close
/// it, the request to close comes only while it is open, and neither a
/// removal nor the end is asked for while it is open.
pub proof fn lemma_volume_is_closed_before_removal(s: SmartEjectView, r: SmartReplyView)
    ensures
        ({
            let (next, request) = smart_step_of(s, r);
            &&& volume_is_open(s.phase) ==> volume_is_open(next.phase) || (next.phase is Closing
                && request is Close)
            &&& request is Close ==> volume_is_open(s.phase)
            &&& volume_is_open(next.phase) ==> volume_is_open(s.phase) || (s.phase is Opening
                && r is Opened)
            &&& request is HardwareEject || request is EjectByLetter || request is Finished
                ==> !volume_is_open(s.phase)
        }),
{
}

/// The requests that the protocol hands out when it is answered with
/// `replies`, one after the other.
pub open spec fn smart_requests(s: SmartEjectView, replies: Seq<SmartReplyView>) -> Seq<
    SmartRequestView,
>
    decreases replies.len(),
{
    if replies.len() == 0 {
        Seq::empty()
    } else {
        let (next, request) = smart_step_of(s, replies[0]);
        seq![request] + smart_requests(next, replies.drop_first())
    }
}

/// How often the requests ask to close the volume.
pub open spec fn closes_in(requests: Seq<SmartRequestView>) -> nat
    decreases requests.len(),
{
    if requests.len() == 0 {
        0
    } else {
        closes_in(requests.drop_last()) + if requests.last() is Close {
            1nat
        } else {
            0nat
        }
    }
}

/// The requests come to the end of the protocol.
pub open spec fn comes_to_end(requests: Seq<SmartRequestView>) -> bool {
    exists|k: int| 0 <= k < requests.len() && #[trigger] requests[k] is Finished
}

/// Every request for a removal comes after a request to close the volume.
pub open spec fn removal_follows_close(requests: Seq<SmartRequestView>) -> bool {
    forall|k: int|
        0 <= k < requests.len() && ((#[trigger] requests[k]) is HardwareEject || requests[k]
            is EjectByLetter) ==> exists|j: int| 0 <= j < k && #[trigger] requests[j] is Close
}

/// The count of the requests to close, over two runs of requests.
proof fn lemma_closes_in_sum(a: Seq<SmartRequestView>, b: Seq<SmartRequestView>)
    ensures
        closes_in(a + b) == closes_in(a) + closes_in(b),
    decreases b.len(),
{
    if b.len() == 0 {
        assert(a + b == a);
    } else {
        assert((a + b).drop_last() == a + b.drop_last());
        assert((a + b).last() == b.last());
        lemma_closes_in_sum(a, b.drop_last());
    }
}

/// From any point of the protocol on, however it is answered: the volume
/// is closed once at most, never again once the closing was asked for, and
/// once exactly where it is open and the protocol comes to its end; and
/// while the volume is open or not yet opened, no removal is asked for
/// before the closing.
proof fn lemma_closes_from(s: SmartEjectView, replies: Seq<SmartReplyView>)
    ensures
        closes_in(smart_requests(s, replies)) <= 1,
        !volume_is_open(s.phase) && !(s.phase is Opening) ==> closes_in(
            smart_requests(s, replies),
        ) == 0,
        volume_is_open(s.phase) && comes_to_end(smart_requests(s, replies)) ==> closes_in(
            smart_requests(s, replies),
        ) == 1,
        s.phase is Opening && replies.len() > 0 && !(replies[0] is Opened) ==> closes_in(
            smart_requests(s, replies),
        ) == 0,
        s.phase is Opening && replies.len() > 0 && replies[0] is Opened && comes_to_end(
            smart_requests(s, replies),
        ) ==> closes_in(smart_requests(s, replies)) == 1,
        volume_is_open(s.phase) || s.phase is Opening ==> removal_follows_close(
            smart_requests(s, replies),
        ),
        s.phase is Finished ==> forall|k: int|
            0 <= k < smart_requests(s, replies).len() ==> (#[trigger] smart_requests(
                s,
                replies,
            )[k]) is Finished,
    decreases replies.len(),
{
    let all = smart_requests(s, replies);
    if replies.len() > 0 {
        let (next, request) = smart_step_of(s, replies[0]);
        let rest = smart_requests(next, replies.drop_first());
        lemma_closes_from(next, replies.drop_first());
        lemma_closes_in_sum(seq![request], rest);
        assert(closes_in(seq![request]) == if request is Close {
            1nat
        } else {
            0nat
        }) by {
            reveal_with_fuel(closes_in, 2);
            assert(seq![request].drop_last() == Seq::<SmartRequestView>::empty());
            assert(seq![request].last() == request);
        }
        if comes_to_end(all) && !(request is Finished) {
            let k = choose|k: int| 0 <= k < all.len() && #[trigger] all[k] is Finished;
            assert(all[k] == rest[k - 1]);
            assert(rest[k - 1] is Finished);
        }
        if volume_is_open(s.phase) || s.phase is Opening {
            assert forall|k: int|
                0 <= k < all.len() && ((#[trigger] all[k]) is HardwareEject || all[k]
                    is EjectByLetter) implies exists|j: int|
                0 <= j < k && #[trigger] all[j] is Close by {
                assert(k > 0);
                assert(all[k] == rest[k - 1]);
                if request is Close {
                    assert(all[0] is Close);
                } else {
                    assert(volume_is_open(next.phase) || next.phase is Finished);
                    assert(!(rest[k - 1] is Finished));
                    let j = choose|j: int| 0 <= j < k - 1 && #[trigger] rest[j] is Close;
                    assert(all[j + 1] == rest[j]);
                    assert(all[j + 1] is Close);
                }
            }
        }
        if s.phase is Finished {
            assert forall|k: int| 0 <= k < all.len() implies (#[trigger] all[k]) is Finished by {
                if k > 0 {
                    assert(all[k] == rest[k - 1]);
                }
            }
        }
    }
}

/// The volume is closed once on every way out, and before the bus is
/// asked. However the protocol is answered: a volume that was opened is
/// closed exactly once by the time the protocol ends, a volume that could
/// not be opened is never closed, and every request for a removal comes
/// after the closing.
pub proof fn lemma_volume_is_closed_exactly_once(
    drive: Seq<char>,
    depth: Depth,
    replies: Seq<SmartReplyView>,
)
    requires
        replies.len() > 0,
    ensures
        ({
            let requests = smart_requests(smart_begin_of(drive, depth).0, replies);
            &&& closes_in(requests) <= 1
            &&& !(replies[0] is Opened) ==> closes_in(requests) == 0
            &&& replies[0] is Opened && comes_to_end(requests) ==> closes_in(requests) == 1
            &&& removal_follows_close(requests)
        }),
{
    lemma_closes_from(smart_begin_of(drive, depth).0, replies);
}

/// The lock is asked for five times at most, and a refused removal is
/// tried again three times at most; the removal goes by the identity that
/// the volume told, and by the letter only where it told none.
pub proof fn lemma_attempts_are_bounded(s: SmartEjectView, r: SmartReplyView)
    requires
        s.locks <= LOCK_ATTEMPTS,
        s.retries <= EJECT_RETRIES,
    ensures
        ({
            let (next, request) = smart_step_of(s, r);
            &&& next.locks <= LOCK_ATTEMPTS
            &&& next.retries <= EJECT_RETRIES
            &&& request is Lock ==> next.locks == s.locks + 1 || (s.phase is Flushing
                && next.locks == 1)
            &&& s.phase is Ejecting && request is Pause ==> next.retries == s.retries + 1
                && request == SmartRequestView::Pause(RETRY_PAUSE)
            &&& s.phase is RetryPause ==> next.retries == s.retries
            &&& request is HardwareEject ==> s.identity == Some(request->HardwareEject_0)
            &&& request is EjectByLetter ==> s.identity is None && request
                == SmartRequestView::EjectByLetter(s.drive)
            &&& next.drive == s.drive
        }),
{
}

/// The protocol ends: each reply uses up an attempt or moves the protocol
/// to a later step.
pub proof fn lemma_protocol_ends(s: SmartEjectView, r: SmartReplyView)
    requires
        s.locks <= LOCK_ATTEMPTS,
        s.retries <= EJECT_RETRIES,
    ensures
        s.phase != SmartPhase::Finished ==> smart_steps_left(smart_step_of(s, r).0)
            < smart_steps_left(s),
{
}

/// A bound on the requests that the protocol can still hand out.
pub open spec fn smart_steps_left(s: SmartEjectView) -> nat {
    match s.phase {
        SmartPhase::Opening => 40,
        SmartPhase::QueryingIdentity => 39,
        SmartPhase::Flushing => 38,
        SmartPhase::Locking => (2 * (LOCK_ATTEMPTS - s.locks) + 14) as nat,
        SmartPhase::LockBackoff => (2 * (LOCK_ATTEMPTS - s.locks) + 13) as nat,
        SmartPhase::Dismounting => 12,
        SmartPhase::Closing => 11,
        SmartPhase::Settling => 10,
        SmartPhase::Ejecting => (2 * (EJECT_RETRIES - s.retries) + 1) as nat,
        SmartPhase::RetryPause => (2 * (EJECT_RETRIES - s.retries) + 2) as nat,
        SmartPhase::LetterEjecting => 1,
        SmartPhase::Finished => 0,
    }
}

/// The smart eject of one drive.
#[derive(Clone, Debug, PartialEq, Eq)]
pub struct SmartEject {
    drive: String,
    depth: Depth,
    phase: SmartPhase,
    identity: Option<DeviceIdentity>,
    locks: u8,
    retries: u8,
    result: Option<Failure>,
}

impl View for SmartEject {
    type V = SmartEjectView;

    closed spec fn view(&self) -> SmartEjectView {
        SmartEjectView {
            drive: self.drive@,
            depth: self.depth,
            phase: self.phase,
            identity: self.identity,
            locks: self.locks,
            retries: self.retries,
            result: model_of(self.result),
        }
    }
}

/// A copy of a failure that may be there.
fn copy_of(f: &Option<Failure>) -> (out: Option<Failure>)
    ensures
        model_of(out) == model_of(*f),
{
    match f {
        Some(failure) => Some(failure.duplicate()),
        None => None,
    }
}

/// Begins the smart eject of a drive.
pub fn smart_eject(drive: &str) -> (out: (SmartEject, SmartRequest))
    ensures
        (out.0@, out.1@) == smart_begin_of(drive@, Depth::Full),
{
    SmartEject::begin(drive, Depth::Full)
}

/// Begins the quick eject of a drive.
pub fn quick_eject(drive: &str) -> (out: (SmartEject, SmartRequest))
    ensures
        (out.0@, out.1@) == smart_begin_of(drive@, Depth::Quick),
{
    SmartEject::begin(drive, Depth::Quick)
}

impl SmartEject {
    /// Begins the eject of a drive, the whole protocol or the removal
    /// alone.
    pub fn begin(drive: &str, depth: Depth) -> (out: (SmartEject, SmartRequest))
        ensures
            (out.0@, out.1@) == smart_begin_of(drive@, depth),
    {
        let d = trim_drive(drive);
        let path = device_path(d.as_str());
        (
            SmartEject {
                drive: d,
                depth,
                phase: SmartPhase::Opening,
                identity: None,
                locks: 0,
                retries: 0,
                result: None,
            },
            SmartRequest::OpenVolume(path),
        )
    }

    /// Whether the protocol has ended.
    pub fn is_finished(&self) -> (b: bool)
        ensures
            b == (self@.phase is Finished),
    {
        match self.phase {
            SmartPhase::Finished => true,
            _ => false,
        }
    }

    /// Ends the protocol with this result.
    fn end(self, result: Option<Failure>) -> (out: (SmartEject, SmartRequest))
        ensures
            (out.0@, out.1@) == finish(self@, model_of(result)),
    {
        let shown = copy_of(&result);
        (
            SmartEject {
                drive: self.drive,
                depth: self.depth,
                phase: SmartPhase::Finished,
                identity: self.identity,
                locks: self.locks,
                retries: self.retries,
                result,
            },
            SmartRequest::Finished(shown),
        )
    }

    /// The protocol in another phase, with this request out.
    fn go(self, phase: SmartPhase, request: SmartRequest) -> (out: (SmartEject, SmartRequest))
        ensures
            out.0@ == (SmartEjectView { phase, ..self@ }),
            out.1 == request,
    {
        (
            SmartEject {
                drive: self.drive,
                depth: self.depth,
                phase,
                identity: self.identity,
                locks: self.locks,
                retries: self.retries,
                result: self.result,
            },
            request,
        )
    }

    /// Whether a refused removal is tried again.
    fn retries_left(&self) -> (b: bool)
        ensures
            b == (self@.depth is Full && self@.retries < EJECT_RETRIES),
    {
        match self.depth {
            Depth::Full => self.retries < EJECT_RETRIES,
            Depth::Quick => false,
        }
    }

    /// Counts one more retry and asks for the pause before it.
    fn pause_before_retry(self) -> (out: (SmartEject, SmartRequest))
        requires
            self.retries < EJECT_RETRIES,
        ensures
            out.0@ == (SmartEjectView {
                phase: SmartPhase::RetryPause,
                retries: (self@.retries + 1) as u8,
                ..self@
            }),
            out.1@ == SmartRequestView::Pause(RETRY_PAUSE),
    {
        (
            SmartEject {
                drive: self.drive,
                depth: self.depth,
                phase: SmartPhase::RetryPause,
                identity: self.identity,
                locks: self.locks,
                retries: self.retries + 1,
                result: self.result,
            },
            SmartRequest::Pause(RETRY_PAUSE),
        )
    }

    /// Asks for the removal.
    fn removal(self) -> (out: (SmartEject, SmartRequest))
        ensures
            (out.0@, out.1@) == ask_removal(self@),
    {
        match self.identity {
            Some(id) => self.go(SmartPhase::Ejecting, SmartRequest::HardwareEject(id)),
            None => {
                let letter = self.drive.clone();
                self.go(SmartPhase::LetterEjecting, SmartRequest::EjectByLetter(letter))
            },
        }
    }

    /// Takes the reply to the request that is out, and hands out the next
    /// request.
    pub fn step(self, reply: SmartReply) -> (out: (SmartEject, SmartRequest))
        ensures
            (out.0@, out.1@) == smart_step_of(self@, reply@),
    {
        match self.phase {
            SmartPhase::Opening => match reply {
                SmartReply::Opened => self.go(
                    SmartPhase::QueryingIdentity,
                    SmartRequest::QueryIdentity,
                ),
                SmartReply::OpenFailed(code) => self.end(Some(Failure::from_open_error(code))),
                _ => self.end(Some(Failure::NotFound)),
            },
            SmartPhase::QueryingIdentity => {
                let identity = match reply {
                    SmartReply::Identity(id) => id,
                    _ => None,
                };
                let (phase, request) = match self.depth {
                    Depth::Full => (SmartPhase::Flushing, SmartRequest::Flush),
                    Depth::Quick => (SmartPhase::Closing, SmartRequest::Close),
                };
                (
                    SmartEject {
                        drive: self.drive,
                        depth: self.depth,
                        phase,
                        identity,
                        locks: self.locks,
                        retries: self.retries,
                        result: self.result,
                    },
                    request,
                )
            },
            SmartPhase::Flushing => (
                SmartEject {
                    drive: self.drive,
                    depth: self.depth,
                    phase: SmartPhase::Locking,
                    identity: self.identity,
                    locks: 1,
                    retries: self.retries,
                    result: self.result,
                },
                SmartRequest::Lock,
            ),
            SmartPhase::Locking => match reply {
                SmartReply::Worked(true) => self.go(
                    SmartPhase::Dismounting,
                    SmartRequest::Dismount,
                ),
                _ => self.go(SmartPhase::LockBackoff, SmartRequest::Pause(LOCK_BACKOFF)),
            },
            SmartPhase::LockBackoff => {
                if self.locks < LOCK_ATTEMPTS {
                    (
                        SmartEject {
                            drive: self.drive,
                            depth: self.depth,
                            phase: SmartPhase::Locking,
                            identity: self.identity,
                            locks: self.locks + 1,
                            retries: self.retries,
                            result: self.result,
                        },
                        SmartRequest::Lock,
                    )
                } else {
                    self.go(SmartPhase::Dismounting, SmartRequest::Dismount)
                }
            },
            SmartPhase::Dismounting => self.go(SmartPhase::Closing, SmartRequest::Close),
            SmartPhase::Closing => match self.depth {
                Depth::Full => self.go(SmartPhase::Settling, SmartRequest::Pause(SETTLE_PAUSE)),
                Depth::Quick => self.removal(),
            },
            SmartPhase::Settling => self.removal(),
            SmartPhase::Ejecting => match reply {
                SmartReply::Removed => self.end(None),
                SmartReply::Failed(f) => {
                    if self.retries_left() {
                        self.pause_before_retry()
                    } else {
                        self.end(Some(f))
                    }
                },
                _ => {
                    if self.retries_left() {
                        self.pause_before_retry()
                    } else {
                        self.end(Some(Failure::Unknown(String::new())))
                    }
                },
            },
            SmartPhase::RetryPause => self.removal(),
            SmartPhase::LetterEjecting => match reply {
                SmartReply::Removed => self.end(None),
                SmartReply::Failed(f) => self.end(Some(f)),
                _ => self.end(Some(Failure::Unknown(String::new()))),
            },
            SmartPhase::Finished => {
                let shown = copy_of(&self.result);
                (self, SmartRequest::Finished(shown))
            },
        }
    }
}

} // verus!
