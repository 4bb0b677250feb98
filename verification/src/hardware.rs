//! The hardware ejector: finds the disk that a volume lives on among the
//! disk interfaces of the machine and asks the bus to remove it, the node
//! above the disk first and the disk itself only where that was refused.
//!
//! The ejector performs nothing itself: it hands out one request at a
//! time and takes the reply. A reply that does not answer the request
//! counts as its failure: the list could not be opened, there are no more
//! interfaces, the removal was refused without a code.

use vstd::prelude::*;
use crate::failure::{Failure, FailureView};

verus! {

/// The status with which the platform accepts a removal.
pub const STATUS_ACCEPTED: u32 = 0;

/// What tells one storage device from another while it is mounted.
#[derive(Clone, Copy, Debug, PartialEq, Eq)]
pub struct DeviceIdentity {
    pub number: u32,
    pub kind: u32,
}

/// The node that is asked to let a device go.
#[derive(Clone, Copy, Debug, PartialEq, Eq)]
pub enum BusNode {
    /// The node above the disk on the bus.
    Parent,
    /// The disk itself.
    Device,
}

/// What the look at one disk interface gave.
#[derive(Clone, Copy, Debug, PartialEq, Eq)]
pub enum Probe {
    /// There is no interface at this index: the list has ended.
    End,
    /// There is one, and it does not tell its identity.
    Unreadable,
    /// There is one, with this identity.
    Device(DeviceIdentity),
}

/// How an attempt to remove a device ended.
#[derive(Clone, Copy, Debug, PartialEq, Eq)]
pub enum Removal {
    /// A node accepted the removal.
    Removed,
    /// The list of disk interfaces could not be opened.
    Unavailable,
    /// No interface has the identity looked for.
    NoMatch,
    /// Every node that was asked refused; these are the codes of the last
    /// refusal.
    Refused { status: u32, veto: u32 },
}

/// What the caller is to do next.
#[derive(Clone, Copy, Debug, PartialEq, Eq)]
pub enum HardwareRequest {
    /// Open the list of the disk interfaces that are present.
    OpenList,
    /// Look at the interface at this index of the list.
    Probe(u32),
    /// Ask this node of the interface at this index to let the device go.
    Remove { index: u32, node: BusNode },
    /// Close the list.
    CloseList,
    /// Tell the shell that the list of drives has changed.
    NotifyShell,
    /// The attempt has ended, in this way.
    Finished(Removal),
}

/// How the last request went.
#[derive(Clone, Copy, Debug, PartialEq, Eq)]
pub enum HardwareReply {
    /// Carried out; there is nothing to report.
    Ack,
    /// Whether the list was opened.
    Opened(bool),
    /// What the look at the interface gave.
    Probed(Probe),
    /// The status and the veto type that the node answered with.
    Answered { status: u32, veto: u32 },
}

/// Where an attempt stands: the request that is out.
#[derive(Clone, Copy, Debug, PartialEq, Eq)]
pub enum HardwarePhase {
    Opening,
    Probing,
    AskingParent,
    AskingDevice,
    Closing,
    Notifying,
    Finished,
}

/// One attempt to remove a device.
#[derive(Clone, Copy, Debug, PartialEq, Eq)]
pub struct HardwareEjector {
    /// The identity looked for.
    pub target: DeviceIdentity,
    /// Where the attempt stands.
    pub phase: HardwarePhase,
    /// The index of the interface that is looked at.
    pub index: u32,
    /// How the attempt ends, as far as it is known.
    pub result: Removal,
}

/// The class of the failure that an attempt ended in; none where the
/// device was removed.
pub open spec fn failure_of(removal: Removal) -> Option<FailureView> {
    match removal {
        Removal::Removed => None,
        Removal::Unavailable => Some(FailureView::FacilityUnavailable),
        Removal::NoMatch => Some(FailureView::NotFound),
        Removal::Refused { status, veto } => Some(FailureView::HardwareVeto { status, veto }),
    }
}

/// The reply says that the node accepted the removal.
pub open spec fn accepted(r: HardwareReply) -> bool {
    r matches HardwareReply::Answered { status, .. } && status == STATUS_ACCEPTED
}

/// The refusal that a reply stands for: its own codes, or none where it
/// brings none.
pub open spec fn refusal_in(r: HardwareReply) -> Removal {
    match r {
        HardwareReply::Answered { status, veto } => Removal::Refused { status, veto },
        _ => Removal::Refused { status: 0, veto: 0 },
    }
}

/// The attempt and its first request.
pub open spec fn hardware_begin_of(target: DeviceIdentity) -> (HardwareEjector, HardwareRequest) {
    (
        HardwareEjector {
            target,
            phase: HardwarePhase::Opening,
            index: 0,
            result: Removal::NoMatch,
        },
        HardwareRequest::OpenList,
    )
}

/// The look at the next interface, or the end of the list where the index
/// cannot grow.
pub open spec fn move_on(s: HardwareEjector) -> (HardwareEjector, HardwareRequest) {
    if s.index < u32::MAX {
        (
            HardwareEjector { phase: HardwarePhase::Probing, index: (s.index + 1) as u32, ..s },
            HardwareRequest::Probe((s.index + 1) as u32),
        )
    } else {
        (HardwareEjector { phase: HardwarePhase::Closing, ..s }, HardwareRequest::CloseList)
    }
}

/// The attempt and the request that follow a reply.
pub open spec fn hardware_step_of(s: HardwareEjector, r: HardwareReply) -> (
    HardwareEjector,
    HardwareRequest,
) {
    match s.phase {
        HardwarePhase::Opening => if r == HardwareReply::Opened(true) {
            (
                HardwareEjector { phase: HardwarePhase::Probing, index: 0, ..s },
                HardwareRequest::Probe(0),
            )
        } else {
            (
                HardwareEjector {
                    phase: HardwarePhase::Finished,
                    result: Removal::Unavailable,
                    ..s
                },
                HardwareRequest::Finished(Removal::Unavailable),
            )
        },
        HardwarePhase::Probing => match r {
            HardwareReply::Probed(Probe::Device(found)) => if found == s.target {
                (
                    HardwareEjector { phase: HardwarePhase::AskingParent, ..s },
                    HardwareRequest::Remove { index: s.index, node: BusNode::Parent },
                )
            } else {
                move_on(s)
            },
            HardwareReply::Probed(Probe::Unreadable) => move_on(s),
            _ => (
                HardwareEjector { phase: HardwarePhase::Closing, ..s },
                HardwareRequest::CloseList,
            ),
        },
        HardwarePhase::AskingParent => if accepted(r) {
            (
                HardwareEjector {
                    phase: HardwarePhase::Closing,
                    result: Removal::Removed,
                    ..s
                },
                HardwareRequest::CloseList,
            )
        } else {
            (
                HardwareEjector { phase: HardwarePhase::AskingDevice, ..s },
                HardwareRequest::Remove { index: s.index, node: BusNode::Device },
            )
        },
        HardwarePhase::AskingDevice => if accepted(r) {
            (
                HardwareEjector {
                    phase: HardwarePhase::Closing,
                    result: Removal::Removed,
                    ..s
                },
                HardwareRequest::CloseList,
            )
        } else {
            move_on(HardwareEjector { result: refusal_in(r), ..s })
        },
        HardwarePhase::Closing => if s.result is Removed {
            (
                HardwareEjector { phase: HardwarePhase::Notifying, ..s },
                HardwareRequest::NotifyShell,
            )
        } else {
            (
                HardwareEjector { phase: HardwarePhase::Finished, ..s },
                HardwareRequest::Finished(s.result),
            )
        },
        HardwarePhase::Notifying => (
            HardwareEjector { phase: HardwarePhase::Finished, ..s },
            HardwareRequest::Finished(s.result),
        ),
        HardwarePhase::Finished => (s, HardwareRequest::Finished(s.result)),
    }
}

/// The list of interfaces is open while an attempt is in `phase`.
pub open spec fn list_is_open(phase: HardwarePhase) -> bool {
    phase is Probing || phase is AskingParent || phase is AskingDevice
}

/// The node above the disk is asked before the disk: the disk itself is
/// asked only for the interface whose parent was asked just before, and
/// only where the parent did not accept. A parent is asked only for an
/// interface that has just shown the identity looked for.
pub proof fn lemma_parent_is_asked_first(s: HardwareEjector, r: HardwareReply)
    ensures
        match hardware_step_of(s, r).1 {
            HardwareRequest::Remove { index, node: BusNode::Device } => {
                &&& s.phase is AskingParent
                &&& index == s.index
                &&& !accepted(r)
            },
            HardwareRequest::Remove { index, node: BusNode::Parent } => {
                &&& s.phase is Probing
                &&& index == s.index
                &&& r == HardwareReply::Probed(Probe::Device(s.target))
            },
            _ => true,
        },
{
}

/// The list is closed once on every way out: while it is open a step keeps
/// it open or asks to close it, the request to close comes only while it
/// is open, and an attempt ends only with the list closed.
pub proof fn lemma_list_is_closed_once(s: HardwareEjector, r: HardwareReply)
    ensures
        ({
            let (next, request) = hardware_step_of(s, r);
            &&& list_is_open(s.phase) ==> list_is_open(next.phase) || (next.phase is Closing
                && request is CloseList)
            &&& request is CloseList ==> list_is_open(s.phase) && next.phase is Closing
            &&& list_is_open(next.phase) ==> list_is_open(s.phase) || (s.phase is Opening && r
                == HardwareReply::Opened(true))
            &&& request is Finished ==> !list_is_open(s.phase) && next.phase is Finished
        }),
{
}

/// The requests that an attempt hands out when it is answered with
/// `replies`, one after the other.
pub open spec fn hardware_requests(s: HardwareEjector, replies: Seq<HardwareReply>) -> Seq<
    HardwareRequest,
>
    decreases replies.len(),
{
    if replies.len() == 0 {
        Seq::empty()
    } else {
        let (next, request) = hardware_step_of(s, replies[0]);
        seq![request] + hardware_requests(next, replies.drop_first())
    }
}

/// In a run of requests the disk itself is asked only right after the node
/// above it.
pub open spec fn parent_goes_first(requests: Seq<HardwareRequest>) -> bool {
    forall|k: int|
        0 <= k < requests.len() ==> match #[trigger] requests[k] {
            HardwareRequest::Remove { index, node: BusNode::Device } => k > 0 && requests[k - 1]
                == (HardwareRequest::Remove { index, node: BusNode::Parent }),
            _ => true,
        }
}

/// From any point of an attempt on, however it is answered: the disk
/// itself is asked only right after the node above it.
proof fn lemma_parent_first_from(s: HardwareEjector, replies: Seq<HardwareReply>)
    ensures
        forall|k: int|
            0 < k < replies.len() ==> match #[trigger] hardware_requests(s, replies)[k] {
                HardwareRequest::Remove { index, node: BusNode::Device } => hardware_requests(
                    s,
                    replies,
                )[k - 1] == (HardwareRequest::Remove { index, node: BusNode::Parent }),
                _ => true,
            },
        hardware_requests(s, replies).len() == replies.len(),
    decreases replies.len(),
{
    let all = hardware_requests(s, replies);
    if replies.len() > 0 {
        let (next, request) = hardware_step_of(s, replies[0]);
        let rest = hardware_requests(next, replies.drop_first());
        lemma_parent_first_from(next, replies.drop_first());
        assert forall|k: int| 0 < k < replies.len() implies match #[trigger] all[k] {
            HardwareRequest::Remove { index, node: BusNode::Device } => all[k - 1] == (
            HardwareRequest::Remove { index, node: BusNode::Parent }),
            _ => true,
        } by {
            assert(all[k] == rest[k - 1]);
            if k == 1 {
                assert(all[0] == request);
                assert(rest[0] == hardware_step_of(next, replies.drop_first()[0]).1);
                lemma_parent_is_asked_first(next, replies.drop_first()[0]);
                lemma_parent_is_asked_first(s, replies[0]);
            } else {
                assert(all[k - 1] == rest[k - 2]);
            }
        }
    }
}

/// The node above the disk is always asked before the disk. However an
/// attempt is answered, from its first request on: wherever the disk
/// itself is asked to let the device go, the request just before asked the
/// node above it, for the same interface.
pub proof fn lemma_parent_always_goes_first(target: DeviceIdentity, replies: Seq<HardwareReply>)
    ensures
        parent_goes_first(
            seq![hardware_begin_of(target).1] + hardware_requests(
                hardware_begin_of(target).0,
                replies,
            ),
        ),
{
    let (s, first) = hardware_begin_of(target);
    let run = hardware_requests(s, replies);
    let all = seq![first] + run;
    lemma_parent_first_from(s, replies);
    assert forall|k: int| 0 <= k < all.len() implies match #[trigger] all[k] {
        HardwareRequest::Remove { index, node: BusNode::Device } => k > 0 && all[k - 1] == (
        HardwareRequest::Remove { index, node: BusNode::Parent }),
        _ => true,
    } by {
        if k == 1 {
            assert(all[1] == run[0]);
            assert(run[0] == hardware_step_of(s, replies[0]).1);
            lemma_parent_is_asked_first(s, replies[0]);
        } else if k > 1 {
            assert(all[k] == run[k - 1]);
            assert(all[k - 1] == run[k - 2]);
        }
    }
}

/// How often the requests ask to close the list.
pub open spec fn list_closes_in(requests: Seq<HardwareRequest>) -> nat
    decreases requests.len(),
{
    if requests.len() == 0 {
        0
    } else {
        list_closes_in(requests.drop_last()) + if requests.last() is CloseList {
            1nat
        } else {
            0nat
        }
    }
}

/// The requests come to the end of the attempt.
pub open spec fn attempt_ends_in(requests: Seq<HardwareRequest>) -> bool {
    exists|k: int| 0 <= k < requests.len() && #[trigger] requests[k] is Finished
}

/// The count of the requests to close, over two runs of requests.
proof fn lemma_list_closes_sum(a: Seq<HardwareRequest>, b: Seq<HardwareRequest>)
    ensures
        list_closes_in(a + b) == list_closes_in(a) + list_closes_in(b),
    decreases b.len(),
{
    if b.len() == 0 {
        assert(a + b == a);
    } else {
        assert((a + b).drop_last() == a + b.drop_last());
        assert((a + b).last() == b.last());
        lemma_list_closes_sum(a, b.drop_last());
    }
}

/// From any point of an attempt on, however it is answered: the list is
/// closed once at most, never again once the closing was asked for, and
/// once exactly where it is open and the attempt comes to its end.
proof fn lemma_list_closes_from(s: HardwareEjector, replies: Seq<HardwareReply>)
    ensures
        list_closes_in(hardware_requests(s, replies)) <= 1,
        !list_is_open(s.phase) && !(s.phase is Opening) ==> list_closes_in(
            hardware_requests(s, replies),
        ) == 0,
        list_is_open(s.phase) && attempt_ends_in(hardware_requests(s, replies))
            ==> list_closes_in(hardware_requests(s, replies)) == 1,
        s.phase is Opening && replies.len() > 0 && replies[0] != HardwareReply::Opened(true)
            ==> list_closes_in(hardware_requests(s, replies)) == 0,
        s.phase is Opening && replies.len() > 0 && replies[0] == HardwareReply::Opened(true)
            && attempt_ends_in(hardware_requests(s, replies)) ==> list_closes_in(
            hardware_requests(s, replies),
        ) == 1,
    decreases replies.len(),
{
    let all = hardware_requests(s, replies);
    if replies.len() > 0 {
        let (next, request) = hardware_step_of(s, replies[0]);
        let rest = hardware_requests(next, replies.drop_first());
        lemma_list_closes_from(next, replies.drop_first());
        lemma_list_closes_sum(seq![request], rest);
        assert(list_closes_in(seq![request]) == if request is CloseList {
            1nat
        } else {
            0nat
        }) by {
            reveal_with_fuel(list_closes_in, 2);
            assert(seq![request].drop_last() == Seq::<HardwareRequest>::empty());
            assert(seq![request].last() == request);
        }
        if attempt_ends_in(all) && !(request is Finished) {
            let k = choose|k: int| 0 <= k < all.len() && #[trigger] all[k] is Finished;
            assert(all[k] == rest[k - 1]);
            assert(rest[k - 1] is Finished);
        }
    }
}

/// The list is closed once on every way out, and never twice. However an
/// attempt is answered: a list that was opened is closed exactly once by
/// the time the attempt ends, and a list that could not be opened is never
/// closed.
pub proof fn lemma_list_is_closed_exactly_once(target: DeviceIdentity, replies: Seq<HardwareReply>)
    requires
        replies.len() > 0,
    ensures
        ({
            let requests = hardware_requests(hardware_begin_of(target).0, replies);
            &&& list_closes_in(requests) <= 1
            &&& replies[0] != HardwareReply::Opened(true) ==> list_closes_in(requests) == 0
            &&& replies[0] == HardwareReply::Opened(true) && attempt_ends_in(requests)
                ==> list_closes_in(requests) == 1
        }),
{
    lemma_list_closes_from(hardware_begin_of(target).0, replies);
}

/// The result is settled by what the nodes answered: an attempt reports a
/// removal only after a node accepted it and the shell was told, and once
/// a node has accepted, nothing changes the result.
pub proof fn lemma_removal_is_reported_after_acceptance(s: HardwareEjector, r: HardwareReply)
    ensures
        ({
            let (next, request) = hardware_step_of(s, r);
            &&& next.result is Removed ==> s.result is Removed || ((s.phase is AskingParent
                || s.phase is AskingDevice) && accepted(r))
            &&& request == HardwareRequest::Finished(Removal::Removed) ==> s.result is Removed
                && (s.phase is Notifying || s.phase is Finished)
            &&& request is NotifyShell ==> s.phase is Closing && s.result is Removed
            &&& next.target == s.target
        }),
{
}

/// Every attempt ends: each reply moves it to a later interface or a later
/// phase.
pub proof fn lemma_attempt_ends(s: HardwareEjector, r: HardwareReply)
    ensures
        s.phase != HardwarePhase::Finished ==> steps_left(hardware_step_of(s, r).0) < steps_left(
            s,
        ),
{
}

/// A bound on the requests that an attempt can still hand out.
pub open spec fn steps_left(s: HardwareEjector) -> nat {
    match s.phase {
        HardwarePhase::Opening => 3 * (u32::MAX as nat) + 8,
        HardwarePhase::Probing => 3 * ((u32::MAX - s.index) as nat) + 6,
        HardwarePhase::AskingParent => 3 * ((u32::MAX - s.index) as nat) + 5,
        HardwarePhase::AskingDevice => 3 * ((u32::MAX - s.index) as nat) + 4,
        HardwarePhase::Closing => 2,
        HardwarePhase::Notifying => 1,
        HardwarePhase::Finished => 0,
    }
}

impl Removal {
    /// The failure that the attempt ended in; none where the device was
    /// removed.
    pub fn failure(self) -> (f: Option<Failure>)
        ensures
            match f {
                Some(failure) => failure_of(self) == Some(failure@),
                None => failure_of(self) is None,
            },
    {
        match self {
            Removal::Removed => None,
            Removal::Unavailable => Some(Failure::FacilityUnavailable),
            Removal::NoMatch => Some(Failure::NotFound),
            Removal::Refused { status, veto } => Some(Failure::HardwareVeto { status, veto }),
        }
    }
}

/// Begins an attempt to find the device with this number and type among
/// the disk interfaces, and to have the bus remove it.
pub fn find_and_eject_device(target_device_number: u32, target_device_type: u32) -> (out: (
    HardwareEjector,
    HardwareRequest,
))
    ensures
        out == hardware_begin_of(
            DeviceIdentity { number: target_device_number, kind: target_device_type },
        ),
{
    HardwareEjector::begin(
        DeviceIdentity { number: target_device_number, kind: target_device_type },
    )
}

impl HardwareEjector {
    /// Begins an attempt to remove the device with the identity `target`.
    pub fn begin(target: DeviceIdentity) -> (out: (HardwareEjector, HardwareRequest))
        ensures
            out == hardware_begin_of(target),
    {
        (
            HardwareEjector {
                target,
                phase: HardwarePhase::Opening,
                index: 0,
                result: Removal::NoMatch,
            },
            HardwareRequest::OpenList,
        )
    }

    /// Goes on to the next interface.
    fn next_interface(self) -> (out: (HardwareEjector, HardwareRequest))
        ensures
            out == move_on(self),
    {
        if self.index < u32::MAX {
            let index: u32 = self.index + 1;
            (
                HardwareEjector {
                    target: self.target,
                    phase: HardwarePhase::Probing,
                    index,
                    result: self.result,
                },
                HardwareRequest::Probe(index),
            )
        } else {
            (self.at(HardwarePhase::Closing), HardwareRequest::CloseList)
        }
    }

    /// This attempt in another phase.
    fn at(self, phase: HardwarePhase) -> (s: HardwareEjector)
        ensures
            s == (HardwareEjector { phase, ..self }),
    {
        HardwareEjector { target: self.target, phase, index: self.index, result: self.result }
    }

    /// This attempt with another result.
    fn with(self, result: Removal) -> (s: HardwareEjector)
        ensures
            s == (HardwareEjector { result, ..self }),
    {
        HardwareEjector { target: self.target, phase: self.phase, index: self.index, result }
    }

    /// Takes the reply to the request that is out, and hands out the next
    /// request.
    pub fn step(self, reply: HardwareReply) -> (out: (HardwareEjector, HardwareRequest))
        ensures
            out == hardware_step_of(self, reply),
    {
        let yes = match reply {
            HardwareReply::Answered { status, veto } => status == STATUS_ACCEPTED,
            _ => false,
        };
        match self.phase {
            HardwarePhase::Opening => match reply {
                HardwareReply::Opened(true) => (
                    HardwareEjector {
                        target: self.target,
                        phase: HardwarePhase::Probing,
                        index: 0,
                        result: self.result,
                    },
                    HardwareRequest::Probe(0),
                ),
                _ => (
                    self.with(Removal::Unavailable).at(HardwarePhase::Finished),
                    HardwareRequest::Finished(Removal::Unavailable),
                ),
            },
            HardwarePhase::Probing => match reply {
                HardwareReply::Probed(Probe::Device(found)) => {
                    if found.number == self.target.number && found.kind == self.target.kind {
                        (
                            self.at(HardwarePhase::AskingParent),
                            HardwareRequest::Remove { index: self.index, node: BusNode::Parent },
                        )
                    } else {
                        self.next_interface()
                    }
                },
                HardwareReply::Probed(Probe::Unreadable) => self.next_interface(),
                _ => (self.at(HardwarePhase::Closing), HardwareRequest::CloseList),
            },
            HardwarePhase::AskingParent => {
                if yes {
                    (
                        self.with(Removal::Removed).at(HardwarePhase::Closing),
                        HardwareRequest::CloseList,
                    )
                } else {
                    (
                        self.at(HardwarePhase::AskingDevice),
                        HardwareRequest::Remove { index: self.index, node: BusNode::Device },
                    )
                }
            },
            HardwarePhase::AskingDevice => {
                if yes {
                    (
                        self.with(Removal::Removed).at(HardwarePhase::Closing),
                        HardwareRequest::CloseList,
                    )
                } else {
                    let refusal = match reply {
                        HardwareReply::Answered { status, veto } => Removal::Refused {
                            status,
                            veto,
                        },
                        _ => Removal::Refused { status: 0, veto: 0 },
                    };
                    self.with(refusal).next_interface()
                }
            },
            HardwarePhase::Closing => match self.result {
                Removal::Removed => (
                    self.at(HardwarePhase::Notifying),
                    HardwareRequest::NotifyShell,
                ),
                _ => (
                    self.at(HardwarePhase::Finished),
                    HardwareRequest::Finished(self.result),
                ),
            },
            HardwarePhase::Notifying => (
                self.at(HardwarePhase::Finished),
                HardwareRequest::Finished(self.result),
            ),
            HardwarePhase::Finished => (self, HardwareRequest::Finished(self.result)),
        }
    }
}

} // verus!
