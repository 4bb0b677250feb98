//! Occupants: the processes that hold a volume. A scan joins what the
//! resource session reports with what a sweep of the process table finds,
//! and shows each process once.

use vstd::prelude::*;

verus! {

/// A process that holds a volume.
#[derive(Clone, Debug, PartialEq, Eq)]
pub struct Occupant {
    pub pid: u32,
    pub name: String,
    pub desc: String,
}

/// The mathematical model of an [`Occupant`].
pub struct OccupantView {
    pub pid: u32,
    pub name: Seq<char>,
    pub desc: Seq<char>,
}

impl View for Occupant {
    type V = OccupantView;

    open spec fn view(&self) -> OccupantView {
        OccupantView { pid: self.pid, name: self.name@, desc: self.desc@ }
    }
}

impl DeepView for Occupant {
    type V = OccupantView;

    open spec fn deep_view(&self) -> OccupantView {
        self@
    }
}

/// Some entry of `list` has the process id `pid`.
pub open spec fn has_pid(list: Seq<OccupantView>, pid: u32) -> bool {
    exists|i: int| 0 <= i < list.len() && #[trigger] list[i].pid == pid
}

/// No two entries of `list` have the same process id.
pub open spec fn distinct_pids(list: Seq<OccupantView>) -> bool {
    forall|i: int, j: int|
        0 <= i < j < list.len() ==> #[trigger] list[i].pid != #[trigger] list[j].pid
}

/// Entry `at` is the first of `list` with its process id.
pub open spec fn first_of_its_pid(list: Seq<OccupantView>, at: int) -> bool {
    &&& 0 <= at < list.len()
    &&& forall|j: int| 0 <= j < at ==> #[trigger] list[j].pid != list[at].pid
}

/// `list` with, for each process id, the first entry only, in the order of
/// `list`.
pub open spec fn keep_first(list: Seq<OccupantView>) -> Seq<OccupantView>
    decreases list.len(),
{
    if list.len() == 0 {
        Seq::empty()
    } else {
        let kept = keep_first(list.drop_last());
        if has_pid(kept, list.last().pid) {
            kept
        } else {
            kept.push(list.last())
        }
    }
}

/// The occupants of a scan: what the session reported, then what the sweep
/// found, each process once. Where both found a process, the session's
/// entry stands.
pub open spec fn merged(session: Seq<OccupantView>, sweep: Seq<OccupantView>) -> Seq<
    OccupantView,
> {
    keep_first(session + sweep)
}

/// The process ids of a list of occupants, in order.
pub open spec fn pids_of(list: Seq<OccupantView>) -> Seq<u32> {
    Seq::new(list.len(), |i: int| list[i].pid)
}

/// Every entry that `keep_first` keeps is the first that `list` holds of
/// its process id, and every process id of `list` is kept.
pub proof fn lemma_keep_first(list: Seq<OccupantView>)
    ensures
        distinct_pids(keep_first(list)),
        keep_first(list).len() <= list.len(),
        forall|pid: u32| has_pid(list, pid) <==> has_pid(keep_first(list), pid),
        forall|k: int|
            0 <= k < keep_first(list).len() ==> exists|at: int|
                first_of_its_pid(list, at) && list[at] == #[trigger] keep_first(list)[k],
    decreases list.len(),
{
    if list.len() > 0 {
        let front = list.drop_last();
        let last = list.last();
        let kept = keep_first(front);
        let out = keep_first(list);
        lemma_keep_first(front);
        assert forall|pid: u32| has_pid(list, pid) <==> has_pid(out, pid) by {
            if has_pid(list, pid) {
                let i = choose|i: int| 0 <= i < list.len() && #[trigger] list[i].pid == pid;
                if i < front.len() {
                    assert(front[i].pid == pid);
                    assert(has_pid(front, pid));
                    let k = choose|k: int| 0 <= k < kept.len() && #[trigger] kept[k].pid == pid;
                    assert(out[k].pid == pid);
                } else if !has_pid(kept, last.pid) {
                    assert(out[kept.len() as int].pid == pid);
                } else {
                    let k = choose|k: int| 0 <= k < kept.len() && #[trigger] kept[k].pid == pid;
                    assert(out[k].pid == pid);
                }
            }
            if has_pid(out, pid) {
                let k = choose|k: int| 0 <= k < out.len() && #[trigger] out[k].pid == pid;
                if k < kept.len() {
                    assert(kept[k].pid == pid);
                    assert(has_pid(kept, pid));
                    let i = choose|i: int| 0 <= i < front.len() && #[trigger] front[i].pid == pid;
                    assert(list[i].pid == pid);
                } else {
                    assert(list[list.len() - 1].pid == pid);
                }
            }
        }
        assert forall|k: int| 0 <= k < out.len() implies exists|at: int|
            first_of_its_pid(list, at) && list[at] == #[trigger] out[k] by {
            if k < kept.len() {
                let at = choose|at: int| first_of_its_pid(front, at) && front[at] == kept[k];
                assert forall|j: int| 0 <= j < at implies #[trigger] list[j].pid
                    != list[at].pid by {
                    assert(front[j].pid != front[at].pid);
                }
                assert(first_of_its_pid(list, at) && list[at] == out[k]);
            } else {
                let at = list.len() - 1;
                assert forall|j: int| 0 <= j < at implies #[trigger] list[j].pid
                    != list[at].pid by {
                    if list[j].pid == last.pid {
                        assert(front[j].pid == last.pid);
                        assert(has_pid(front, last.pid));
                    }
                }
                assert(first_of_its_pid(list, at) && list[at] == out[k]);
            }
        }
        assert forall|i: int, j: int| 0 <= i < j < out.len() implies #[trigger] out[i].pid
            != #[trigger] out[j].pid by {
            if j < kept.len() {
                assert(kept[i].pid != kept[j].pid);
            } else if out[i].pid == out[j].pid {
                assert(kept[i].pid == last.pid);
            }
        }
    }
}

/// The occupants of a scan hold each process id at most once, whatever the
/// two detection paths found and however their findings overlap; no process
/// that either path found is lost.
pub proof fn lemma_merged_shows_each_process_once(
    session: Seq<OccupantView>,
    sweep: Seq<OccupantView>,
)
    ensures
        distinct_pids(merged(session, sweep)),
        forall|pid: u32|
            has_pid(merged(session, sweep), pid) <==> has_pid(session, pid) || has_pid(
                sweep,
                pid,
            ),
{
    let all = session + sweep;
    lemma_keep_first(all);
    assert forall|pid: u32| has_pid(all, pid) <==> has_pid(session, pid) || has_pid(
        sweep,
        pid,
    ) by {
        if has_pid(all, pid) {
            let i = choose|i: int| 0 <= i < all.len() && #[trigger] all[i].pid == pid;
            if i < session.len() {
                assert(session[i].pid == pid);
            } else {
                assert(sweep[i - session.len()].pid == pid);
            }
        }
        if has_pid(session, pid) {
            let i = choose|i: int| 0 <= i < session.len() && #[trigger] session[i].pid == pid;
            assert(all[i].pid == pid);
        }
        if has_pid(sweep, pid) {
            let i = choose|i: int| 0 <= i < sweep.len() && #[trigger] sweep[i].pid == pid;
            assert(all[session.len() + i].pid == pid);
        }
    }
}

/// Where the session's own entries name each process once, a scan shows
/// them first and unchanged: an entry of the sweep is added only for a
/// process that the session did not report.
pub proof fn lemma_merged_keeps_session_entries(
    session: Seq<OccupantView>,
    sweep: Seq<OccupantView>,
)
    requires
        distinct_pids(session),
    ensures
        session.len() <= merged(session, sweep).len(),
        merged(session, sweep).subrange(0, session.len() as int) == session,
    decreases sweep.len(),
{
    if sweep.len() == 0 {
        assert(session + sweep == session);
        lemma_keep_first_of_distinct(session);
        assert(session.subrange(0, session.len() as int) == session);
    } else {
        lemma_merged_keeps_session_entries(session, sweep.drop_last());
        assert((session + sweep).drop_last() == session + sweep.drop_last());
        let kept = merged(session, sweep.drop_last());
        let out = merged(session, sweep);
        assert(out.subrange(0, session.len() as int) == kept.subrange(
            0,
            session.len() as int,
        ));
    }
}

/// A list that names each process once is kept whole.
pub proof fn lemma_keep_first_of_distinct(list: Seq<OccupantView>)
    requires
        distinct_pids(list),
    ensures
        keep_first(list) == list,
    decreases list.len(),
{
    if list.len() > 0 {
        let front = list.drop_last();
        assert forall|i: int, j: int| 0 <= i < j < front.len() implies #[trigger] front[i].pid
            != #[trigger] front[j].pid by {
            assert(list[i].pid != list[j].pid);
        }
        lemma_keep_first_of_distinct(front);
        if has_pid(front, list.last().pid) {
            let i = choose|i: int|
                0 <= i < front.len() && #[trigger] front[i].pid == list.last().pid;
            assert(list[i].pid != list[list.len() - 1].pid);
        }
        assert(front.push(list.last()) == list);
    }
}

impl Occupant {
    /// A copy of this occupant.
    pub fn duplicate(&self) -> (o: Occupant)
        ensures
            o@ == self@,
    {
        Occupant { pid: self.pid, name: self.name.clone(), desc: self.desc.clone() }
    }
}

/// Whether some entry of `list` has the process id `pid`.
pub fn holds_pid(list: &Vec<Occupant>, pid: u32) -> (b: bool)
    ensures
        b == has_pid(list.deep_view(), pid),
{
    let mut i: usize = 0;
    while i < list.len()
        invariant
            i <= list.len(),
            forall|j: int| 0 <= j < i ==> #[trigger] list.deep_view()[j].pid != pid,
        decreases list.len() - i,
    {
        if list[i].pid == pid {
            assert(list.deep_view()[i as int].pid == pid);
            return true;
        }
        i = i + 1;
    }
    false
}

/// A copy of a list of occupants.
pub fn duplicate_all(list: &Vec<Occupant>) -> (out: Vec<Occupant>)
    ensures
        out.deep_view() == list.deep_view(),
{
    let mut out: Vec<Occupant> = Vec::new();
    let mut i: usize = 0;
    while i < list.len()
        invariant
            i <= list.len(),
            out.deep_view() == list.deep_view().subrange(0, i as int),
        decreases list.len() - i,
    {
        let ghost before = out.deep_view();
        out.push(list[i].duplicate());
        assert(out.deep_view() == before.push(list[i as int]@));
        assert(out.deep_view() == list.deep_view().subrange(0, i + 1));
        i = i + 1;
    }
    assert(list.deep_view().subrange(0, list.len() as int) == list.deep_view());
    out
}

/// Joins the two findings of a scan: the session's entries, then the
/// sweep's, each process once.
pub fn merge_occupants(session: &Vec<Occupant>, sweep: &Vec<Occupant>) -> (out: Vec<Occupant>)
    ensures
        out.deep_view() == merged(session.deep_view(), sweep.deep_view()),
        distinct_pids(out.deep_view()),
{
    let ghost all = session.deep_view() + sweep.deep_view();
    let mut out: Vec<Occupant> = Vec::new();
    let mut i: usize = 0;
    assert(all.subrange(0, 0) == Seq::<OccupantView>::empty());
    while i < session.len()
        invariant
            i <= session.len(),
            all == session.deep_view() + sweep.deep_view(),
            out.deep_view() == keep_first(all.subrange(0, i as int)),
        decreases session.len() - i,
    {
        assert(all.subrange(0, i + 1).drop_last() == all.subrange(0, i as int));
        assert(all.subrange(0, i + 1).last() == session[i as int]@);
        if !holds_pid(&out, session[i].pid) {
            let ghost before = out.deep_view();
            out.push(session[i].duplicate());
            assert(out.deep_view() == before.push(session[i as int]@));
        }
        i = i + 1;
    }
    let mut k: usize = 0;
    while k < sweep.len()
        invariant
            k <= sweep.len(),
            all == session.deep_view() + sweep.deep_view(),
            out.deep_view() == keep_first(all.subrange(0, session.len() + k)),
        decreases sweep.len() - k,
    {
        assert(all.subrange(0, session.len() + k + 1).drop_last() == all.subrange(
            0,
            session.len() + k,
        ));
        assert(all.subrange(0, session.len() + k + 1).last() == sweep[k as int]@);
        if !holds_pid(&out, sweep[k].pid) {
            let ghost before = out.deep_view();
            out.push(sweep[k].duplicate());
            assert(out.deep_view() == before.push(sweep[k as int]@));
        }
        k = k + 1;
    }
    assert(all.subrange(0, all.len() as int) == all);
    proof {
        lemma_keep_first(all);
    }
    out
}

/// The process ids of a list of occupants, in order.
pub fn occupant_pids(list: &Vec<Occupant>) -> (pids: Vec<u32>)
    ensures
        pids@ == pids_of(list.deep_view()),
{
    let mut pids: Vec<u32> = Vec::new();
    let mut i: usize = 0;
    while i < list.len()
        invariant
            i <= list.len(),
            pids@ == pids_of(list.deep_view()).subrange(0, i as int),
        decreases list.len() - i,
    {
        pids.push(list[i].pid);
        i = i + 1;
    }
    assert(pids_of(list.deep_view()).subrange(0, list.len() as int) == pids_of(
        list.deep_view(),
    ));
    pids
}

} // verus!
