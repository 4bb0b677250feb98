//! The eject worker: commands wait in the order they came, and one command
//! is at work at a time. The next command is taken up only when the one at
//! work has ended, so the presentation layer never sees two commands
//! interleaved.

use vstd::prelude::*;
use crate::coordinator::{
    begin_of, lemma_command_begins_with_scanning, lemma_states_shown_in_order, shown_in, step_of,
    Coordinator, CoordinatorView, Reply, ReplyView, Request, RequestView, Shown,
};
use crate::state::{Command, CommandView, EjectStateView};

verus! {

/// The mathematical model of a [`Worker`].
pub struct WorkerView {
    /// The commands that wait, the oldest first.
    pub waiting: Seq<CommandView>,
    /// The command at work, if there is one.
    pub current: Option<CoordinatorView>,
}

/// What happens to a worker: a command comes in, or the reply to the
/// request that is out.
pub enum Turn {
    Submit(CommandView),
    Reply(ReplyView),
}

/// The worker with nothing to do.
pub open spec fn idle() -> WorkerView {
    WorkerView { waiting: Seq::empty(), current: None }
}

/// The worker after a command came in: the command waits behind the
/// others.
pub open spec fn submit_of(w: WorkerView, cmd: CommandView) -> WorkerView {
    WorkerView { waiting: w.waiting.push(cmd), current: w.current }
}

/// A worker without a command at work takes up the oldest that waits;
/// where none waits, it has nothing to ask for.
pub open spec fn take_up(waiting: Seq<CommandView>) -> (WorkerView, RequestView) {
    if waiting.len() > 0 {
        let (c, request) = begin_of(waiting[0]);
        (WorkerView { waiting: waiting.drop_first(), current: Some(c) }, request)
    } else {
        (WorkerView { waiting, current: None }, RequestView::Finished)
    }
}

/// The worker and the request that follow a reply. The command at work
/// takes the reply; once it has ended, the next one is taken up.
pub open spec fn worker_step_of(w: WorkerView, r: ReplyView) -> (WorkerView, RequestView) {
    match w.current {
        Some(c) => {
            let (next, request) = step_of(c, r);
            if request is Finished {
                take_up(w.waiting)
            } else {
                (WorkerView { waiting: w.waiting, current: Some(next) }, request)
            }
        },
        None => take_up(w.waiting),
    }
}

/// The worker after a series of turns, beginning with nothing to do, and
/// the states that it has shown.
pub open spec fn after(turns: Seq<Turn>) -> (WorkerView, Seq<EjectStateView>)
    decreases turns.len(),
{
    if turns.len() == 0 {
        (idle(), Seq::empty())
    } else {
        let (w, shown) = after(turns.drop_last());
        match turns.last() {
            Turn::Submit(cmd) => (submit_of(w, cmd), shown),
            Turn::Reply(r) => {
                let (next, request) = worker_step_of(w, r);
                match request {
                    RequestView::Publish(state) => (next, shown.push(state)),
                    _ => (next, shown),
                }
            },
        }
    }
}

/// The states shown are those of one command after the other: `Scanning`
/// comes first or right after a state that ended a command, `Ejecting`
/// right after `Scanning`, a closing message right after `Scanning` or
/// `Ejecting`, and a list of occupants right after one of these or after
/// the closing message of its own command. `Idle` is never shown.
pub open spec fn one_at_a_time(shown: Seq<EjectStateView>) -> bool {
    forall|i: int|
        0 <= i < shown.len() ==> match #[trigger] shown[i] {
            EjectStateView::Idle => false,
            EjectStateView::Scanning(_) => i == 0 || shown[i - 1].is_terminal(),
            EjectStateView::Ejecting(_) => i > 0 && shown[i - 1] is Scanning,
            EjectStateView::Done { .. } => i > 0 && (shown[i - 1] is Scanning || shown[i - 1]
                is Ejecting),
            EjectStateView::Occupied { .. } => i > 0 && (shown[i - 1] is Scanning || shown[i
                - 1] is Ejecting || shown[i - 1] is Done),
        }
}

/// The commands that came in during a series of turns, in the order they
/// came in.
pub open spec fn submitted(turns: Seq<Turn>) -> Seq<CommandView>
    decreases turns.len(),
{
    if turns.len() == 0 {
        Seq::empty()
    } else {
        match turns.last() {
            Turn::Submit(cmd) => submitted(turns.drop_last()).push(cmd),
            Turn::Reply(_) => submitted(turns.drop_last()),
        }
    }
}

/// A reply makes the worker take a command up: no command is at work, or
/// the one at work has just ended, and a command waits.
pub open spec fn takes_up(w: WorkerView, r: ReplyView) -> bool {
    w.waiting.len() > 0 && match w.current {
        Some(c) => step_of(c, r).1 is Finished,
        None => true,
    }
}

/// The commands that the worker has taken up during a series of turns, in
/// the order it took them up.
pub open spec fn taken_up(turns: Seq<Turn>) -> Seq<CommandView>
    decreases turns.len(),
{
    if turns.len() == 0 {
        Seq::empty()
    } else {
        let before = taken_up(turns.drop_last());
        let w = after(turns.drop_last()).0;
        match turns.last() {
            Turn::Reply(r) => if takes_up(w, r) {
                before.push(w.waiting[0])
            } else {
                before
            },
            Turn::Submit(_) => before,
        }
    }
}

/// Commands are taken up in the order they came in, and none is lost: at
/// any time, the commands taken up so far and the commands that wait are
/// together the commands that came in, in their order.
pub proof fn lemma_first_come_first_served(turns: Seq<Turn>)
    ensures
        taken_up(turns) + after(turns).0.waiting == submitted(turns),
    decreases turns.len(),
{
    if turns.len() > 0 {
        let front = turns.drop_last();
        lemma_first_come_first_served(front);
        let w = after(front).0;
        match turns.last() {
            Turn::Submit(cmd) => {
                assert(taken_up(front) + w.waiting.push(cmd) == (taken_up(front)
                    + w.waiting).push(cmd));
            },
            Turn::Reply(r) => {
                if takes_up(w, r) {
                    assert(taken_up(front).push(w.waiting[0]) + w.waiting.drop_first()
                        == taken_up(front) + w.waiting);
                }
            },
        }
    } else {
        assert(taken_up(turns) + after(turns).0.waiting == Seq::<CommandView>::empty());
    }
}

/// What was shown last agrees with where the worker stands.
pub open spec fn agrees(w: WorkerView, shown: Seq<EjectStateView>) -> bool {
    match w.current {
        None => shown.len() == 0 || shown.last().is_terminal(),
        Some(c) => shown.len() > 0 && match shown_in(c.phase) {
            Shown::Scanning => shown.last() is Scanning,
            Shown::Ejecting => shown.last() is Ejecting,
            Shown::DoneBeforeOccupants => shown.last() is Done,
            Shown::Terminal => shown.last().is_terminal(),
        },
    }
}

/// Whatever commands come in and however the requests go, the states that
/// the worker shows are those of one command after the other: a command is
/// shown to begin only when the one before it was shown to end, so at no
/// time is more than one sequence of `Scanning` and `Ejecting` under way.
pub proof fn lemma_one_command_at_a_time(turns: Seq<Turn>)
    ensures
        one_at_a_time(after(turns).1),
        agrees(after(turns).0, after(turns).1),
    decreases turns.len(),
{
    if turns.len() > 0 {
        let front = turns.drop_last();
        lemma_one_command_at_a_time(front);
        let (w, shown) = after(front);
        let (w1, shown1) = after(turns);
        match turns.last() {
            Turn::Submit(cmd) => {},
            Turn::Reply(r) => {
                let (next, request) = worker_step_of(w, r);
                if w.waiting.len() > 0 {
                    lemma_command_begins_with_scanning(w.waiting[0]);
                }
                match w.current {
                    Some(c) => {
                        lemma_states_shown_in_order(c, r);
                    },
                    None => {},
                }
                match request {
                    RequestView::Publish(state) => {
                        assert forall|i: int| 0 <= i < shown1.len() implies match #[trigger] shown1[i] {
                            EjectStateView::Idle => false,
                            EjectStateView::Scanning(_) => i == 0 || shown1[i - 1].is_terminal(),
                            EjectStateView::Ejecting(_) => i > 0 && shown1[i - 1] is Scanning,
                            EjectStateView::Done { .. } => i > 0 && (shown1[i - 1] is Scanning
                                || shown1[i - 1] is Ejecting),
                            EjectStateView::Occupied { .. } => i > 0 && (shown1[i - 1]
                                is Scanning || shown1[i - 1] is Ejecting || shown1[i - 1]
                                is Done),
                        } by {
                            if i < shown.len() {
                                assert(shown1[i] == shown[i]);
                                if i > 0 {
                                    assert(shown1[i - 1] == shown[i - 1]);
                                }
                            }
                        }
                    },
                    _ => {},
                }
            },
        }
    }
}

/// The eject worker.
#[derive(Clone, Debug, PartialEq, Eq)]
pub struct Worker {
    waiting: Vec<Command>,
    current: Option<Coordinator>,
}

impl View for Worker {
    type V = WorkerView;

    closed spec fn view(&self) -> WorkerView {
        WorkerView {
            waiting: self.waiting.deep_view(),
            current: match self.current {
                Some(c) => Some(c@),
                None => None,
            },
        }
    }
}

/// Takes up the oldest command that waits.
fn take_next(waiting: Vec<Command>) -> (out: (Worker, Request))
    ensures
        (out.0@, out.1@) == take_up(waiting.deep_view()),
{
    let mut waiting = waiting;
    if waiting.len() > 0 {
        let ghost before = waiting.deep_view();
        let cmd = waiting.remove(0);
        assert(waiting.deep_view() == before.drop_first());
        let (c, request) = Coordinator::begin(cmd);
        (Worker { waiting, current: Some(c) }, request)
    } else {
        (Worker { waiting, current: None }, Request::Finished)
    }
}

impl Worker {
    /// A worker with nothing to do.
    pub fn new() -> (w: Worker)
        ensures
            w@ == idle(),
    {
        let waiting: Vec<Command> = Vec::new();
        assert(waiting.deep_view() == Seq::<CommandView>::empty());
        Worker { waiting, current: None }
    }

    /// Whether no command is at work.
    pub fn is_idle(&self) -> (b: bool)
        ensures
            b == (self@.current is None),
    {
        self.current.is_none()
    }

    /// The number of commands that wait.
    pub fn backlog(&self) -> (n: usize)
        ensures
            n == self@.waiting.len(),
    {
        self.waiting.len()
    }

    /// Takes a command in: it waits behind those that came before it.
    pub fn submit(self, cmd: Command) -> (w: Worker)
        ensures
            w@ == submit_of(self@, cmd@),
    {
        let Worker { waiting, current } = self;
        let mut waiting = waiting;
        let ghost before = waiting.deep_view();
        waiting.push(cmd);
        assert(waiting.deep_view() == before.push(cmd@));
        Worker { waiting, current }
    }

    /// Takes the reply to the request that is out, and hands out the next
    /// request. `Finished` says that no command is at work and none waits.
    pub fn step(self, reply: Reply) -> (out: (Worker, Request))
        ensures
            (out.0@, out.1@) == worker_step_of(self@, reply@),
    {
        let Worker { waiting, current } = self;
        match current {
            Some(c) => {
                let (next, request) = c.step(reply);
                match request {
                    Request::Finished => take_next(waiting),
                    _ => (Worker { waiting, current: Some(next) }, request),
                }
            },
            None => take_next(waiting),
        }
    }
}

} // verus!
