//! The resource session: the platform's record of which processes have a
//! path open. A session is opened, the paths of the drive are registered
//! with it, it is asked for the processes or told to shut them down, and it
//! is ended, on every way out.
//!
//! The session performs nothing itself: it hands out one request at a time
//! and takes the reply. A reply that does not answer the request counts as
//! its failure.

use vstd::prelude::*;
use vstd::string::StringExecFns;
use crate::drive::{
    canonical, close_with_backslash, closed_with_backslash, drive_root, norm_drive, root_of,
};
use crate::occupant::{duplicate_all, Occupant, OccupantView};
use crate::text::{decimal, decimal_text};

verus! {

/// The status with which the platform reports success.
pub const STATUS_OK: u32 = 0;

/// The status with which the platform reports that the list is longer than
/// the room it was given.
pub const STATUS_MORE_DATA: u32 = 234;

/// The status of a request that was not answered.
pub const STATUS_NONE: u32 = 0xffff_ffff;

/// A process as the session reports it.
#[derive(Clone, Debug, PartialEq, Eq)]
pub struct SessionRecord {
    pub pid: u32,
    /// The name of the application; empty where the session knows none.
    pub app_name: String,
    /// The short name of the service; empty where the process is none.
    pub service_name: String,
}

/// The mathematical model of a [`SessionRecord`].
pub struct SessionRecordView {
    pub pid: u32,
    pub app_name: Seq<char>,
    pub service_name: Seq<char>,
}

impl View for SessionRecord {
    type V = SessionRecordView;

    open spec fn view(&self) -> SessionRecordView {
        SessionRecordView {
            pid: self.pid,
            app_name: self.app_name@,
            service_name: self.service_name@,
        }
    }
}

impl DeepView for SessionRecord {
    type V = SessionRecordView;

    open spec fn deep_view(&self) -> SessionRecordView {
        self@
    }
}

/// What a session is opened for.
#[derive(Clone, Copy, Debug, PartialEq, Eq)]
pub enum Purpose {
    /// To list the processes that hold the drive.
    List,
    /// To shut them down: by force, or only those that agree.
    Release { force: bool },
}

/// The step of a session at which the platform refused.
#[derive(Clone, Copy, Debug, PartialEq, Eq)]
pub enum SessionStage {
    Start,
    Register,
    Size,
    Fill,
    Shutdown,
}

/// A refusal by the platform: the step, and the status it answered with.
#[derive(Clone, Copy, Debug, PartialEq, Eq)]
pub struct SessionError {
    pub stage: SessionStage,
    pub status: u32,
}

/// How a session ended.
#[derive(Clone, Debug, PartialEq, Eq)]
pub enum SessionResult {
    /// The processes that hold the drive, as far as the session knows them.
    Occupants(Vec<Occupant>),
    /// The processes were told to shut down.
    Released,
    /// The platform refused.
    Failed(SessionError),
}

/// The mathematical model of a [`SessionResult`].
pub enum SessionResultView {
    Occupants(Seq<OccupantView>),
    Released,
    Failed(SessionError),
}

impl View for SessionResult {
    type V = SessionResultView;

    open spec fn view(&self) -> SessionResultView {
        match self {
            SessionResult::Occupants(list) => SessionResultView::Occupants(list.deep_view()),
            SessionResult::Released => SessionResultView::Released,
            SessionResult::Failed(e) => SessionResultView::Failed(*e),
        }
    }
}

/// What the caller is to do next.
#[derive(Clone, Debug, PartialEq, Eq)]
pub enum SessionRequest {
    /// Open a session.
    Start,
    /// Find the volume path that is mounted at this root directory.
    ResolveVolume(String),
    /// Register these paths with the session.
    Register(Vec<String>),
    /// Ask the session for its list, with room for this many processes.
    List(u32),
    /// Tell the session to shut the processes down.
    Shutdown { force: bool },
    /// End the session.
    End,
    /// The session is over, with this result.
    Finished(SessionResult),
}

/// The mathematical model of a [`SessionRequest`].
pub enum SessionRequestView {
    Start,
    ResolveVolume(Seq<char>),
    Register(Seq<Seq<char>>),
    List(u32),
    Shutdown { force: bool },
    End,
    Finished(SessionResultView),
}

impl View for SessionRequest {
    type V = SessionRequestView;

    open spec fn view(&self) -> SessionRequestView {
        match self {
            SessionRequest::Start => SessionRequestView::Start,
            SessionRequest::ResolveVolume(root) => SessionRequestView::ResolveVolume(root@),
            SessionRequest::Register(paths) => SessionRequestView::Register(paths.deep_view()),
            SessionRequest::List(room) => SessionRequestView::List(*room),
            SessionRequest::Shutdown { force } => SessionRequestView::Shutdown { force: *force },
            SessionRequest::End => SessionRequestView::End,
            SessionRequest::Finished(result) => SessionRequestView::Finished(result@),
        }
    }
}

/// How the last request went.
#[derive(Clone, Debug, PartialEq, Eq)]
pub enum SessionReply {
    /// Carried out; there is nothing to report.
    Ack,
    /// The status that the platform answered with.
    Status(u32),
    /// The volume path, where the root directory has one.
    Volume(Option<String>),
    /// The answer to a request for the list: the status, the number of
    /// processes that the session knows, and those that fitted the room.
    Listed { status: u32, needed: u32, records: Vec<SessionRecord> },
}

/// The mathematical model of a [`SessionReply`].
pub enum SessionReplyView {
    Ack,
    Status(u32),
    Volume(Option<Seq<char>>),
    Listed { status: u32, needed: u32, records: Seq<SessionRecordView> },
}

impl View for SessionReply {
    type V = SessionReplyView;

    open spec fn view(&self) -> SessionReplyView {
        match self {
            SessionReply::Ack => SessionReplyView::Ack,
            SessionReply::Status(status) => SessionReplyView::Status(*status),
            SessionReply::Volume(path) => SessionReplyView::Volume(
                match path {
                    Some(p) => Some(p@),
                    None => None,
                },
            ),
            SessionReply::Listed { status, needed, records } => SessionReplyView::Listed {
                status: *status,
                needed: *needed,
                records: records.deep_view(),
            },
        }
    }
}

/// Where a session stands: the request that is out.
#[derive(Clone, Copy, Debug, PartialEq, Eq)]
pub enum SessionPhase {
    Starting,
    Resolving,
    Registering,
    Sizing,
    Filling,
    Releasing,
    Ending,
    Finished,
}

/// The mathematical model of a [`ResourceSession`].
pub struct ResourceSessionView {
    /// The drive, in canonical form.
    pub drive: Seq<char>,
    /// What the session was opened for.
    pub purpose: Purpose,
    /// Where the session stands.
    pub phase: SessionPhase,
    /// How the session ends, as far as it is known.
    pub result: SessionResultView,
}

/// The name under which a process of the session is shown: the name of its
/// application, or `Unknown`.
pub open spec fn shown_name(record: SessionRecordView) -> Seq<char> {
    if record.app_name.len() > 0 {
        record.app_name
    } else {
        "Unknown"@
    }
}

/// The description of a process of the session: where it comes from, the
/// name of its application, and for a service its short name.
pub open spec fn shown_description(record: SessionRecordView) -> Seq<char> {
    if record.service_name.len() > 0 {
        "RestartManager："@ + record.app_name + " (服务:"@ + record.service_name + ")"@
    } else {
        "RestartManager："@ + record.app_name
    }
}

/// The occupant that stands for a process of the session.
pub open spec fn occupant_of(record: SessionRecordView) -> OccupantView {
    OccupantView {
        pid: record.pid,
        name: shown_name(record),
        desc: shown_description(record),
    }
}

/// The occupants that stand for the processes of the session, in order.
pub open spec fn occupants_of(records: Seq<SessionRecordView>) -> Seq<OccupantView> {
    Seq::new(records.len(), |i: int| occupant_of(records[i]))
}

/// The paths of a drive that are registered: its root directory, and the
/// volume path mounted there where the platform told one. A process may
/// have either open.
pub open spec fn paths_of(drive: Seq<char>, volume: Option<Seq<char>>) -> Seq<Seq<char>> {
    match volume {
        Some(path) => seq![root_of(drive), closed_with_backslash(path)],
        None => seq![root_of(drive)],
    }
}

/// The status that a reply reports.
pub open spec fn status_in(r: SessionReplyView) -> u32 {
    match r {
        SessionReplyView::Status(status) => status,
        SessionReplyView::Listed { status, .. } => status,
        _ => STATUS_NONE,
    }
}

/// The words of a refusal: the platform's call, and the status.
pub open spec fn refusal_text(e: SessionError) -> Seq<char> {
    (match e.stage {
        SessionStage::Start => "RmStartSession rc="@,
        SessionStage::Register => "RmRegisterResources rc="@,
        SessionStage::Size => "RmGetList rc="@,
        SessionStage::Fill => "RmGetList#2 rc="@,
        SessionStage::Shutdown => "RmShutdown rc="@,
    }) + decimal(e.status as nat)
}

/// The session and its first request.
pub open spec fn session_begin_of(drive: Seq<char>, purpose: Purpose) -> (
    ResourceSessionView,
    SessionRequestView,
) {
    (
        ResourceSessionView {
            drive: canonical(drive),
            purpose,
            phase: SessionPhase::Starting,
            result: SessionResultView::Failed(
                SessionError { stage: SessionStage::Start, status: STATUS_NONE },
            ),
        },
        SessionRequestView::Start,
    )
}

/// The request to end the session, with the result settled.
pub open spec fn wind_up(s: ResourceSessionView, result: SessionResultView) -> (
    ResourceSessionView,
    SessionRequestView,
) {
    (ResourceSessionView { phase: SessionPhase::Ending, result, ..s }, SessionRequestView::End)
}

/// The refusal at a step.
pub open spec fn refused(stage: SessionStage, r: SessionReplyView) -> SessionResultView {
    SessionResultView::Failed(SessionError { stage, status: status_in(r) })
}

/// The session and the request that follow a reply.
pub open spec fn session_step_of(s: ResourceSessionView, r: SessionReplyView) -> (
    ResourceSessionView,
    SessionRequestView,
) {
    match s.phase {
        SessionPhase::Starting => if status_in(r) == STATUS_OK {
            (
                ResourceSessionView { phase: SessionPhase::Resolving, ..s },
                SessionRequestView::ResolveVolume(root_of(s.drive)),
            )
        } else {
            let result = refused(SessionStage::Start, r);
            (
                ResourceSessionView { phase: SessionPhase::Finished, result, ..s },
                SessionRequestView::Finished(result),
            )
        },
        SessionPhase::Resolving => (
            ResourceSessionView { phase: SessionPhase::Registering, ..s },
            SessionRequestView::Register(
                paths_of(
                    s.drive,
                    match r {
                        SessionReplyView::Volume(path) => path,
                        _ => None,
                    },
                ),
            ),
        ),
        SessionPhase::Registering => if status_in(r) != STATUS_OK {
            wind_up(s, refused(SessionStage::Register, r))
        } else {
            match s.purpose {
                Purpose::List => (
                    ResourceSessionView { phase: SessionPhase::Sizing, ..s },
                    SessionRequestView::List(0),
                ),
                Purpose::Release { force } => (
                    ResourceSessionView { phase: SessionPhase::Releasing, ..s },
                    SessionRequestView::Shutdown { force },
                ),
            }
        },
        SessionPhase::Sizing => match r {
            SessionReplyView::Listed { status, needed, records } => if status != STATUS_OK
                && status != STATUS_MORE_DATA {
                wind_up(s, refused(SessionStage::Size, r))
            } else if needed == 0 {
                wind_up(s, SessionResultView::Occupants(Seq::empty()))
            } else {
                (
                    ResourceSessionView { phase: SessionPhase::Filling, ..s },
                    SessionRequestView::List(needed),
                )
            },
            _ => wind_up(s, refused(SessionStage::Size, r)),
        },
        SessionPhase::Filling => match r {
            SessionReplyView::Listed { status, needed, records } => if status != STATUS_OK {
                wind_up(s, refused(SessionStage::Fill, r))
            } else {
                wind_up(s, SessionResultView::Occupants(occupants_of(records)))
            },
            _ => wind_up(s, refused(SessionStage::Fill, r)),
        },
        SessionPhase::Releasing => if status_in(r) == STATUS_OK {
            wind_up(s, SessionResultView::Released)
        } else {
            wind_up(s, refused(SessionStage::Shutdown, r))
        },
        SessionPhase::Ending => (
            ResourceSessionView { phase: SessionPhase::Finished, ..s },
            SessionRequestView::Finished(s.result),
        ),
        SessionPhase::Finished => (s, SessionRequestView::Finished(s.result)),
    }
}

/// The session is open while it is in `phase`.
pub open spec fn session_is_open(phase: SessionPhase) -> bool {
    phase is Resolving || phase is Registering || phase is Sizing || phase is Filling
        || phase is Releasing
}

/// A session that was opened is ended once, on every way out: while it is
/// open a step keeps it open or asks to end it, the request to end comes
/// only while it is open, and the result is handed out only once the
/// session is over or was never opened.
pub proof fn lemma_session_is_ended_once(s: ResourceSessionView, r: SessionReplyView)
    ensures
        ({
            let (next, request) = session_step_of(s, r);
            &&& session_is_open(s.phase) ==> session_is_open(next.phase) || (next.phase
                is Ending && request is End)
            &&& request is End ==> session_is_open(s.phase) && next.phase is Ending
            &&& session_is_open(next.phase) ==> session_is_open(s.phase) || (s.phase
                is Starting && status_in(r) == STATUS_OK)
            &&& request is Finished ==> !session_is_open(s.phase) && next.phase is Finished
                && request == SessionRequestView::Finished(next.result)
        }),
{
}

/// The requests that a session hands out when it is answered with
/// `replies`, one after the other.
pub open spec fn session_requests(s: ResourceSessionView, replies: Seq<SessionReplyView>) -> Seq<
    SessionRequestView,
>
    decreases replies.len(),
{
    if replies.len() == 0 {
        Seq::empty()
    } else {
        let (next, request) = session_step_of(s, replies[0]);
        seq![request] + session_requests(next, replies.drop_first())
    }
}

/// How often the requests ask to end the session.
pub open spec fn ends_in(requests: Seq<SessionRequestView>) -> nat
    decreases requests.len(),
{
    if requests.len() == 0 {
        0
    } else {
        ends_in(requests.drop_last()) + if requests.last() is End {
            1nat
        } else {
            0nat
        }
    }
}

/// The requests hand the result out.
pub open spec fn hands_out_result(requests: Seq<SessionRequestView>) -> bool {
    exists|k: int| 0 <= k < requests.len() && #[trigger] requests[k] is Finished
}

/// The count of the requests to end, over two runs of requests.
proof fn lemma_ends_in_sum(a: Seq<SessionRequestView>, b: Seq<SessionRequestView>)
    ensures
        ends_in(a + b) == ends_in(a) + ends_in(b),
    decreases b.len(),
{
    if b.len() == 0 {
        assert(a + b == a);
    } else {
        assert((a + b).drop_last() == a + b.drop_last());
        assert((a + b).last() == b.last());
        lemma_ends_in_sum(a, b.drop_last());
    }
}

/// From any point of a session on, however it is answered: it is asked to
/// end once at most, never once it is over, and once exactly where it is
/// open and comes to hand its result out.
proof fn lemma_ends_from(s: ResourceSessionView, replies: Seq<SessionReplyView>)
    ensures
        ends_in(session_requests(s, replies)) <= 1,
        s.phase is Ending || s.phase is Finished ==> ends_in(session_requests(s, replies)) == 0,
        session_is_open(s.phase) && hands_out_result(session_requests(s, replies)) ==> ends_in(
            session_requests(s, replies),
        ) == 1,
        s.phase is Starting && replies.len() > 0 && status_in(replies[0]) != STATUS_OK
            ==> ends_in(session_requests(s, replies)) == 0,
        s.phase is Starting && replies.len() > 0 && status_in(replies[0]) == STATUS_OK
            && hands_out_result(session_requests(s, replies)) ==> ends_in(
            session_requests(s, replies),
        ) == 1,
    decreases replies.len(),
{
    let all = session_requests(s, replies);
    if replies.len() > 0 {
        let (next, request) = session_step_of(s, replies[0]);
        let rest = session_requests(next, replies.drop_first());
        lemma_ends_from(next, replies.drop_first());
        lemma_ends_in_sum(seq![request], rest);
        assert(ends_in(seq![request]) == if request is End {
            1nat
        } else {
            0nat
        }) by {
            reveal_with_fuel(ends_in, 2);
            assert(seq![request].drop_last() == Seq::<SessionRequestView>::empty());
            assert(seq![request].last() == request);
        }
        if hands_out_result(all) && !(request is Finished) {
            let k = choose|k: int| 0 <= k < all.len() && #[trigger] all[k] is Finished;
            assert(all[k] == rest[k - 1]);
            assert(rest[k - 1] is Finished);
        }
    }
}

/// A session is ended once on every way out, and never twice: however it
/// is answered, a session that was opened and has handed its result out
/// was asked to end exactly once, and a session that could not be opened
/// is never asked to end.
pub proof fn lemma_session_is_ended_exactly_once(
    drive: Seq<char>,
    purpose: Purpose,
    replies: Seq<SessionReplyView>,
)
    requires
        replies.len() > 0,
    ensures
        ({
            let requests = session_requests(session_begin_of(drive, purpose).0, replies);
            &&& ends_in(requests) <= 1
            &&& status_in(replies[0]) != STATUS_OK ==> ends_in(requests) == 0
            &&& status_in(replies[0]) == STATUS_OK && hands_out_result(requests) ==> ends_in(
                requests,
            ) == 1
        }),
{
    lemma_ends_from(session_begin_of(drive, purpose).0, replies);
}

/// Every session ends within seven requests.
pub proof fn lemma_session_ends(s: ResourceSessionView, r: SessionReplyView)
    ensures
        s.phase != SessionPhase::Finished ==> session_steps_left(session_step_of(s, r).0.phase)
            < session_steps_left(s.phase),
{
}

/// The most requests that a session can still hand out.
pub open spec fn session_steps_left(phase: SessionPhase) -> nat {
    match phase {
        SessionPhase::Starting => 7,
        SessionPhase::Resolving => 6,
        SessionPhase::Registering => 5,
        SessionPhase::Sizing => 4,
        SessionPhase::Filling => 3,
        SessionPhase::Releasing => 3,
        SessionPhase::Ending => 1,
        SessionPhase::Finished => 0,
    }
}

/// The occupant that stands for a process of the session.
pub fn occupant_from_record(record: &SessionRecord) -> (o: Occupant)
    ensures
        o@ == occupant_of(record@),
{
    let name = if !record.app_name.as_str().is_empty() {
        record.app_name.clone()
    } else {
        String::from_str("Unknown")
    };
    let mut desc = String::from_str("RestartManager：");
    desc.append(record.app_name.as_str());
    if !record.service_name.as_str().is_empty() {
        desc.append(" (服务:");
        desc.append(record.service_name.as_str());
        desc.append(")");
    }
    Occupant { pid: record.pid, name, desc }
}

/// The occupants that stand for the processes of the session, in order.
pub fn occupants_from_records(records: &Vec<SessionRecord>) -> (out: Vec<Occupant>)
    ensures
        out.deep_view() == occupants_of(records.deep_view()),
{
    let mut out: Vec<Occupant> = Vec::new();
    let mut i: usize = 0;
    while i < records.len()
        invariant
            i <= records.len(),
            out.deep_view() == occupants_of(records.deep_view()).subrange(0, i as int),
        decreases records.len() - i,
    {
        let ghost before = out.deep_view();
        out.push(occupant_from_record(&records[i]));
        assert(out.deep_view() == before.push(occupant_of(records[i as int]@)));
        i = i + 1;
    }
    assert(occupants_of(records.deep_view()).subrange(0, records.len() as int) == occupants_of(
        records.deep_view(),
    ));
    out
}

/// The paths of a drive that are registered with the session.
pub fn session_paths(drive: &str, volume: Option<String>) -> (paths: Vec<String>)
    ensures
        paths.deep_view() == paths_of(
            drive@,
            match volume {
                Some(p) => Some(p@),
                None => None,
            },
        ),
{
    let mut paths: Vec<String> = Vec::new();
    paths.push(drive_root(drive));
    match volume {
        Some(path) => {
            paths.push(close_with_backslash(path.as_str()));
            assert(paths.deep_view() == seq![root_of(drive@), closed_with_backslash(path@)]);
        },
        None => {
            assert(paths.deep_view() == seq![root_of(drive@)]);
        },
    }
    paths
}

impl SessionError {
    /// The words of this refusal.
    pub fn describe(&self) -> (s: String)
        ensures
            s@ == refusal_text(*self),
    {
        let mut s = match self.stage {
            SessionStage::Start => String::from_str("RmStartSession rc="),
            SessionStage::Register => String::from_str("RmRegisterResources rc="),
            SessionStage::Size => String::from_str("RmGetList rc="),
            SessionStage::Fill => String::from_str("RmGetList#2 rc="),
            SessionStage::Shutdown => String::from_str("RmShutdown rc="),
        };
        s.append(decimal_text(self.status).as_str());
        s
    }
}

impl SessionResult {
    /// A copy of this result.
    pub fn duplicate(&self) -> (out: SessionResult)
        ensures
            out@ == self@,
    {
        match self {
            SessionResult::Occupants(list) => SessionResult::Occupants(duplicate_all(list)),
            SessionResult::Released => SessionResult::Released,
            SessionResult::Failed(e) => SessionResult::Failed(*e),
        }
    }
}

/// A resource session for one drive.
#[derive(Clone, Debug, PartialEq, Eq)]
pub struct ResourceSession {
    drive: String,
    purpose: Purpose,
    phase: SessionPhase,
    result: SessionResult,
}

impl View for ResourceSession {
    type V = ResourceSessionView;

    closed spec fn view(&self) -> ResourceSessionView {
        ResourceSessionView {
            drive: self.drive@,
            purpose: self.purpose,
            phase: self.phase,
            result: self.result@,
        }
    }
}

/// Begins a session that lists the processes which hold a drive.
pub fn list_occupants(drive_letter: &str) -> (out: (ResourceSession, SessionRequest))
    ensures
        (out.0@, out.1@) == session_begin_of(drive_letter@, Purpose::List),
{
    ResourceSession::begin(drive_letter, Purpose::List)
}

/// Begins a session that shuts the processes down which hold a drive.
pub fn shutdown_occupants(drive_letter: &str, force: bool) -> (out: (
    ResourceSession,
    SessionRequest,
))
    ensures
        (out.0@, out.1@) == session_begin_of(drive_letter@, Purpose::Release { force }),
{
    ResourceSession::begin(drive_letter, Purpose::Release { force })
}

/// The status that a reply reports.
fn status_from(reply: &SessionReply) -> (status: u32)
    ensures
        status == status_in(reply@),
{
    match reply {
        SessionReply::Status(status) => *status,
        SessionReply::Listed { status, .. } => *status,
        _ => STATUS_NONE,
    }
}

impl ResourceSession {
    /// Begins a session for a drive.
    pub fn begin(drive: &str, purpose: Purpose) -> (out: (ResourceSession, SessionRequest))
        ensures
            (out.0@, out.1@) == session_begin_of(drive@, purpose),
    {
        (
            ResourceSession {
                drive: norm_drive(drive),
                purpose,
                phase: SessionPhase::Starting,
                result: SessionResult::Failed(
                    SessionError { stage: SessionStage::Start, status: STATUS_NONE },
                ),
            },
            SessionRequest::Start,
        )
    }

    /// Whether the session is over.
    pub fn is_finished(&self) -> (b: bool)
        ensures
            b == (self@.phase is Finished),
    {
        match self.phase {
            SessionPhase::Finished => true,
            _ => false,
        }
    }

    /// The session in another phase, with this request out.
    fn go(self, phase: SessionPhase, request: SessionRequest) -> (out: (
        ResourceSession,
        SessionRequest,
    ))
        ensures
            out.0@ == (ResourceSessionView { phase, ..self@ }),
            out.1 == request,
    {
        (
            ResourceSession {
                drive: self.drive,
                purpose: self.purpose,
                phase,
                result: self.result,
            },
            request,
        )
    }

    /// Settles the result and asks to end the session.
    fn end_with(self, result: SessionResult) -> (out: (ResourceSession, SessionRequest))
        ensures
            (out.0@, out.1@) == wind_up(self@, result@),
    {
        (
            ResourceSession {
                drive: self.drive,
                purpose: self.purpose,
                phase: SessionPhase::Ending,
                result,
            },
            SessionRequest::End,
        )
    }

    /// Takes the reply to the request that is out, and hands out the next
    /// request.
    pub fn step(self, reply: SessionReply) -> (out: (ResourceSession, SessionRequest))
        ensures
            (out.0@, out.1@) == session_step_of(self@, reply@),
    {
        let status = status_from(&reply);
        match self.phase {
            SessionPhase::Starting => {
                if status == STATUS_OK {
                    let root = drive_root(self.drive.as_str());
                    self.go(SessionPhase::Resolving, SessionRequest::ResolveVolume(root))
                } else {
                    let e = SessionError { stage: SessionStage::Start, status };
                    (
                        ResourceSession {
                            drive: self.drive,
                            purpose: self.purpose,
                            phase: SessionPhase::Finished,
                            result: SessionResult::Failed(e),
                        },
                        SessionRequest::Finished(SessionResult::Failed(e)),
                    )
                }
            },
            SessionPhase::Resolving => {
                let volume = match reply {
                    SessionReply::Volume(path) => path,
                    _ => None,
                };
                let paths = session_paths(self.drive.as_str(), volume);
                self.go(SessionPhase::Registering, SessionRequest::Register(paths))
            },
            SessionPhase::Registering => {
                if status != STATUS_OK {
                    self.end_with(
                        SessionResult::Failed(
                            SessionError { stage: SessionStage::Register, status },
                        ),
                    )
                } else {
                    match self.purpose {
                        Purpose::List => self.go(SessionPhase::Sizing, SessionRequest::List(0)),
                        Purpose::Release { force } => self.go(
                            SessionPhase::Releasing,
                            SessionRequest::Shutdown { force },
                        ),
                    }
                }
            },
            SessionPhase::Sizing => match reply {
                SessionReply::Listed { status, needed, records } => {
                    if status != STATUS_OK && status != STATUS_MORE_DATA {
                        self.end_with(
                            SessionResult::Failed(
                                SessionError { stage: SessionStage::Size, status },
                            ),
                        )
                    } else if needed == 0 {
                        let nobody: Vec<Occupant> = Vec::new();
                        assert(nobody.deep_view() == Seq::<OccupantView>::empty());
                        self.end_with(SessionResult::Occupants(nobody))
                    } else {
                        self.go(SessionPhase::Filling, SessionRequest::List(needed))
                    }
                },
                _ => self.end_with(
                    SessionResult::Failed(SessionError { stage: SessionStage::Size, status }),
                ),
            },
            SessionPhase::Filling => match reply {
                SessionReply::Listed { status, needed, records } => {
                    if status != STATUS_OK {
                        self.end_with(
                            SessionResult::Failed(
                                SessionError { stage: SessionStage::Fill, status },
                            ),
                        )
                    } else {
                        let list = occupants_from_records(&records);
                        self.end_with(SessionResult::Occupants(list))
                    }
                },
                _ => self.end_with(
                    SessionResult::Failed(SessionError { stage: SessionStage::Fill, status }),
                ),
            },
            SessionPhase::Releasing => {
                if status == STATUS_OK {
                    self.end_with(SessionResult::Released)
                } else {
                    self.end_with(
                        SessionResult::Failed(
                            SessionError { stage: SessionStage::Shutdown, status },
                        ),
                    )
                }
            },
            SessionPhase::Ending => {
                let shown = self.result.duplicate();
                self.go(SessionPhase::Finished, SessionRequest::Finished(shown))
            },
            SessionPhase::Finished => {
                let shown = self.result.duplicate();
                (self, SessionRequest::Finished(shown))
            },
        }
    }
}

} // verus!
