//! The processes of a sample, gathered by name: one group for all the
//! processes of a name, with the memory they hold together. The groups are
//! shown by the memory they hold, the heaviest first, on three shelves.

use vstd::prelude::*;
use vstd::string::StringExecFns;
use crate::classify::{counts_as_system, is_system_process, ProcessInfo, ProcessInfoView};
use crate::text::same_text;
use crate::volume::TIGHT_MEMORY;

verus! {

/// The processes of one name.
#[derive(Clone, Debug, PartialEq, Eq)]
pub struct Group {
    pub name: String,
    pub friendly_name: String,
    pub category: String,
    /// The memory that the processes hold together, in bytes; it stops at
    /// the largest number that fits.
    pub total_memory: u64,
    pub pids: Vec<u32>,
    pub is_system: bool,
    pub is_not_responding: bool,
}

/// The mathematical model of a [`Group`].
pub struct GroupView {
    pub name: Seq<char>,
    pub friendly_name: Seq<char>,
    pub category: Seq<char>,
    pub total_memory: u64,
    pub pids: Seq<u32>,
    pub is_system: bool,
    pub is_not_responding: bool,
}

impl View for Group {
    type V = GroupView;

    open spec fn view(&self) -> GroupView {
        GroupView {
            name: self.name@,
            friendly_name: self.friendly_name@,
            category: self.category@,
            total_memory: self.total_memory,
            pids: self.pids@,
            is_system: self.is_system,
            is_not_responding: self.is_not_responding,
        }
    }
}

impl DeepView for Group {
    type V = GroupView;

    open spec fn deep_view(&self) -> GroupView {
        self@
    }
}

/// A process of a sample, as far as the groups need it.
#[derive(Clone, Copy, Debug, PartialEq, Eq)]
pub struct Member {
    pub pid: u32,
    /// The memory that the process holds, in bytes.
    pub memory: u64,
    /// Whether the platform reports the process as dead or stuck.
    pub not_responding: bool,
}

/// The shelf on which a group is shown.
#[derive(Clone, Copy, Debug, PartialEq, Eq)]
pub enum Shelf {
    /// The groups that weigh on the machine.
    Heavy,
    /// The parts of the system.
    System,
    /// Everything else.
    Other,
}

/// The sum of two amounts of memory, stopping at the largest number that
/// fits.
pub open spec fn capped_sum(a: u64, b: u64) -> u64 {
    if a + b > u64::MAX {
        u64::MAX
    } else {
        (a + b) as u64
    }
}

/// No two groups have the same name.
pub open spec fn names_differ(groups: Seq<GroupView>) -> bool {
    forall|j: int, k: int|
        0 <= j < k < groups.len() ==> #[trigger] groups[j].name != #[trigger] groups[k].name
}

/// A group after a process joined it: its memory and its id are added, and
/// the group counts as part of the system, or as not responding, once one
/// of its processes does.
pub open spec fn joined(g: GroupView, m: Member) -> GroupView {
    GroupView {
        total_memory: capped_sum(g.total_memory, m.memory),
        pids: g.pids.push(m.pid),
        is_system: g.is_system || counts_as_system(m.pid, g.category),
        is_not_responding: g.is_not_responding || m.not_responding,
        ..g
    }
}

/// The group that a name begins with, before any process joined it.
pub open spec fn fresh(name: Seq<char>, info: ProcessInfoView) -> GroupView {
    GroupView {
        name,
        friendly_name: info.chinese_name,
        category: info.category,
        total_memory: 0,
        pids: Seq::empty(),
        is_system: false,
        is_not_responding: false,
    }
}

/// The shelf of a group: heavy where its processes keep the processor busy
/// or hold more memory than the machine can spare, and else by whether it
/// is part of the system.
pub open spec fn shelf_of(g: GroupView, busy: bool) -> Shelf {
    if busy || g.total_memory > TIGHT_MEMORY {
        Shelf::Heavy
    } else if g.is_system {
        Shelf::System
    } else {
        Shelf::Other
    }
}

/// The group at place `a` is shown before the group at place `b`: it holds
/// more memory, or as much and stands before it.
pub open spec fn goes_before(groups: Seq<GroupView>, a: int, b: int) -> bool {
    groups[a].total_memory > groups[b].total_memory || (groups[a].total_memory
        == groups[b].total_memory && a < b)
}

/// `order` lists each place of `groups` once, the heaviest group first and
/// groups of one weight in the order of their places.
pub open spec fn is_order_of(order: Seq<usize>, groups: Seq<GroupView>) -> bool {
    &&& order.len() == groups.len()
    &&& forall|k: int| 0 <= k < order.len() ==> (#[trigger] order[k]) < groups.len()
    &&& forall|j: int, k: int|
        0 <= j < k < order.len() ==> goes_before(
            groups,
            (#[trigger] order[j]) as int,
            (#[trigger] order[k]) as int,
        )
}

/// Place `p` stands somewhere in `order`.
pub open spec fn stands_in(order: Seq<usize>, p: int) -> bool {
    exists|k: int| 0 <= k < order.len() && #[trigger] order[k] == p
}

/// An order leaves no group out: every place stands in it.
pub proof fn lemma_order_holds_every_place(order: Seq<usize>, groups: Seq<GroupView>)
    requires
        is_order_of(order, groups),
    ensures
        forall|p: int| 0 <= p < groups.len() ==> #[trigger] stands_in(order, p),
{
    let n = groups.len() as int;
    assert forall|j: int, k: int| 0 <= j < k < order.len() implies (#[trigger] order[j]) != (
    #[trigger] order[k]) by {
        assert(goes_before(groups, order[j] as int, order[k] as int));
    }
    lemma_range_len(n);
    lemma_held_len(order, n);
    let held = prefix_set(order, n);
    let all = Set::new(|p: int| 0 <= p < n);
    assert(held.subset_of(all)) by {
        assert forall|p: int| held.contains(p) implies all.contains(p) by {
            let k = choose|k: int| 0 <= k < n && #[trigger] order[k] == p;
            assert(order[k] < n);
        }
    }
    vstd::set_lib::lemma_subset_equality(held, all);
    assert forall|p: int| 0 <= p < n implies #[trigger] stands_in(order, p) by {
        assert(all.contains(p));
        assert(held.contains(p));
        let k = choose|k: int| 0 <= k < n && #[trigger] order[k] == p;
        assert(order[k] == p);
    }
}

/// There is one order only: two lists that both order the same groups are
/// the same list.
pub proof fn lemma_order_is_unique(a: Seq<usize>, b: Seq<usize>, groups: Seq<GroupView>)
    requires
        is_order_of(a, groups),
        is_order_of(b, groups),
    ensures
        a == b,
{
    assert forall|k: int| 0 <= k < a.len() implies a[k] == b[k] by {
        lemma_same_place(a, b, groups, k);
    }
    assert(a =~= b);
}

/// The set of the numbers below `n` has `n` members.
proof fn lemma_range_len(n: int)
    requires
        0 <= n,
    ensures
        Set::new(|p: int| 0 <= p < n).finite(),
        Set::new(|p: int| 0 <= p < n).len() == n,
    decreases n,
{
    let s = Set::new(|p: int| 0 <= p < n);
    if n == 0 {
        assert(s =~= Set::<int>::empty());
    } else {
        lemma_range_len(n - 1);
        let t = Set::new(|p: int| 0 <= p < n - 1);
        assert(s =~= t.insert(n - 1));
    }
}

/// The numbers that stand in the first `m` places of a list.
spec fn prefix_set(order: Seq<usize>, m: int) -> Set<int> {
    Set::new(|p: int| exists|k: int| 0 <= k < m && #[trigger] order[k] == p)
}

/// The first `m` places of a list of different numbers hold `m` numbers.
proof fn lemma_held_len(order: Seq<usize>, m: int)
    requires
        0 <= m <= order.len(),
        forall|j: int, k: int|
            0 <= j < k < order.len() ==> (#[trigger] order[j]) != (#[trigger] order[k]),
    ensures
        prefix_set(order, m).finite(),
        prefix_set(order, m).len() == m,
    decreases m,
{
    if m == 0 {
        assert(prefix_set(order, 0) =~= Set::<int>::empty());
    } else {
        lemma_held_len(order, m - 1);
        let before = prefix_set(order, m - 1);
        let last = order[m - 1] as int;
        assert(!before.contains(last)) by {
            if before.contains(last) {
                let k = choose|k: int| 0 <= k < m - 1 && #[trigger] order[k] == last;
                assert(order[k] != order[m - 1]);
            }
        }
        assert(prefix_set(order, m) =~= before.insert(last)) by {
            assert forall|p: int| prefix_set(order, m).contains(p) implies before.insert(
                last,
            ).contains(p) by {
                let k = choose|k: int| 0 <= k < m && #[trigger] order[k] == p;
                if k < m - 1 {
                    assert(before.contains(p));
                }
            }
            assert forall|p: int| before.insert(last).contains(p) implies prefix_set(
                order,
                m,
            ).contains(p) by {
                if p == last {
                    assert(order[m - 1] == p);
                } else {
                    let k = choose|k: int| 0 <= k < m - 1 && #[trigger] order[k] == p;
                    assert(order[k] == p);
                }
            }
        }
    }
}

/// In two orders of the same groups the same place stands at `k`.
proof fn lemma_same_place(a: Seq<usize>, b: Seq<usize>, groups: Seq<GroupView>, k: int)
    requires
        is_order_of(a, groups),
        is_order_of(b, groups),
        0 <= k < a.len(),
    ensures
        a[k] == b[k],
    decreases k,
{
    assert forall|i: int| 0 <= i < k implies a[i] == b[i] by {
        lemma_same_place(a, b, groups, i);
    }
    lemma_order_holds_every_place(a, groups);
    lemma_order_holds_every_place(b, groups);
    let p = a[k] as int;
    let q = b[k] as int;
    assert(stands_in(b, p));
    assert(stands_in(a, q));
    let i = choose|i: int| 0 <= i < b.len() && #[trigger] b[i] == p;
    let j = choose|j: int| 0 <= j < a.len() && #[trigger] a[j] == q;
    if i < k {
        assert(a[i] == b[i]);
        assert(goes_before(groups, a[i] as int, a[k] as int));
    } else if i > k {
        assert(goes_before(groups, b[k] as int, b[i] as int));
        if j < k {
            assert(a[j] == b[j]);
            assert(goes_before(groups, b[j] as int, b[k] as int));
        } else if j > k {
            assert(goes_before(groups, a[k] as int, a[j] as int));
        }
    }
}

/// The sum of two amounts of memory, stopping at the largest number that
/// fits.
pub fn add_memory(a: u64, b: u64) -> (sum: u64)
    ensures
        sum == capped_sum(a, b),
{
    if a > u64::MAX - b {
        u64::MAX
    } else {
        a + b
    }
}

/// The place of the first group with this name, if there is one.
pub fn find_group(groups: &Vec<Group>, name: &str) -> (place: Option<usize>)
    ensures
        match place {
            Some(k) => k < groups.len() && groups[k as int].name@ == name@ && forall|j: int|
                0 <= j < k ==> (#[trigger] groups[j]).name@ != name@,
            None => forall|j: int| 0 <= j < groups.len() ==> (#[trigger] groups[j]).name@ != name@,
        },
{
    let mut k: usize = 0;
    while k < groups.len()
        invariant
            k <= groups.len(),
            forall|j: int| 0 <= j < k ==> (#[trigger] groups[j]).name@ != name@,
        decreases groups.len() - k,
    {
        if same_text(groups[k].name.as_str(), name) {
            return Some(k);
        }
        k = k + 1;
    }
    None
}

/// Lets a process join the group of its name, and begins the group where
/// the name is new. `info` is what is known of the name; it is kept when
/// the group begins, and set aside afterwards. The place of the group is
/// handed back.
pub fn join_group(groups: &mut Vec<Group>, name: &str, info: ProcessInfo, member: Member) -> (place:
    usize)
    ensures
        ({
            let before = old(groups).deep_view();
            let after = final(groups).deep_view();
            if exists|j: int| 0 <= j < before.len() && #[trigger] before[j].name == name@ {
                &&& place < before.len()
                &&& before[place as int].name == name@
                &&& forall|j: int| 0 <= j < place ==> #[trigger] before[j].name != name@
                &&& after == before.update(place as int, joined(before[place as int], member))
            } else {
                &&& place == before.len()
                &&& after == before.push(joined(fresh(name@, info@), member))
            }
        }),
        names_differ(old(groups).deep_view()) ==> names_differ(final(groups).deep_view()),
{
    let ghost before = groups.deep_view();
    let place = match find_group(groups, name) {
        Some(k) => {
            assert(before[k as int].name == name@);
            k
        },
        None => {
            assert forall|j: int| 0 <= j < before.len() implies #[trigger] before[j].name
                != name@ by {
                assert(groups[j].name@ != name@);
            }
            groups.push(
                Group {
                    name: String::from_str(name),
                    friendly_name: info.chinese_name,
                    category: info.category,
                    total_memory: 0,
                    pids: Vec::new(),
                    is_system: false,
                    is_not_responding: false,
                },
            );
            groups.len() - 1
        },
    };
    let ghost begun = groups.deep_view();
    let ghost first = groups[place as int]@;
    let mut group = groups.remove(place);
    let system = is_system_process(member.pid, group.category.as_str());
    group.total_memory = add_memory(group.total_memory, member.memory);
    group.pids.push(member.pid);
    group.is_system = group.is_system || system;
    group.is_not_responding = group.is_not_responding || member.not_responding;
    assert(group@ == joined(first, member));
    groups.insert(place, group);
    proof {
        let after = groups.deep_view();
        assert(after =~= begun.update(place as int, joined(first, member)));
        if exists|j: int| 0 <= j < before.len() && #[trigger] before[j].name == name@ {
            assert(begun == before);
        } else {
            assert(begun == before.push(fresh(name@, info@)));
            assert(after =~= before.push(joined(fresh(name@, info@), member)));
        }
        if names_differ(before) {
            assert forall|j: int, k: int| 0 <= j < k < after.len() implies #[trigger] after[j].name
                != #[trigger] after[k].name by {
                assert(after[j].name == begun[j].name);
                assert(after[k].name == begun[k].name);
                if k < before.len() {
                    assert(before[j].name != before[k].name);
                }
            }
        }
    }
    place
}

/// The shelf on which a group is shown. `busy` says whether the processes
/// of the group keep the processor busy.
pub fn shelf(group: &Group, busy: bool) -> (s: Shelf)
    ensures
        s == shelf_of(group@, busy),
{
    if busy || group.total_memory > TIGHT_MEMORY {
        Shelf::Heavy
    } else if group.is_system {
        Shelf::System
    } else {
        Shelf::Other
    }
}

/// The places of the groups in the order they are shown in: the heaviest
/// group first, and groups of one weight in the order of their places.
pub fn order_by_memory(groups: &Vec<Group>) -> (order: Vec<usize>)
    ensures
        is_order_of(order@, groups.deep_view()),
{
    let ghost model = groups.deep_view();
    let mut order: Vec<usize> = Vec::new();
    let mut i: usize = 0;
    while i < groups.len()
        invariant
            i <= groups.len(),
            model == groups.deep_view(),
            order.len() == i,
            forall|k: int| 0 <= k < order.len() ==> (#[trigger] order[k]) < i,
            forall|j: int, k: int|
                0 <= j < k < order.len() ==> goes_before(
                    model,
                    (#[trigger] order[j]) as int,
                    (#[trigger] order[k]) as int,
                ),
        decreases groups.len() - i,
    {
        let weight = groups[i].total_memory;
        let mut p: usize = 0;
        while p < order.len() && groups[order[p]].total_memory >= weight
            invariant
                p <= order.len(),
                i < groups.len(),
                model == groups.deep_view(),
                weight == model[i as int].total_memory,
                forall|k: int| 0 <= k < order.len() ==> (#[trigger] order[k]) < i,
                forall|k: int|
                    0 <= k < p ==> model[(#[trigger] order[k]) as int].total_memory >= weight,
            decreases order.len() - p,
        {
            p = p + 1;
        }
        let ghost before = order@;
        order.insert(p, i);
        proof {
            let after = order@;
            assert(after == before.insert(p as int, i));
            assert forall|j: int, k: int| 0 <= j < k < after.len() implies goes_before(
                model,
                (#[trigger] after[j]) as int,
                (#[trigger] after[k]) as int,
            ) by {
                if k < p {
                    assert(after[j] == before[j] && after[k] == before[k]);
                } else if k == p {
                    assert(after[j] == before[j]);
                    assert(before[j] < i);
                } else if j < p {
                    assert(after[j] == before[j] && after[k] == before[k - 1]);
                } else if j == p {
                    assert(after[k] == before[k - 1]);
                    if p < before.len() {
                        assert(model[before[p as int] as int].total_memory < weight);
                        if k - 1 > p {
                            assert(goes_before(
                                model,
                                before[p as int] as int,
                                before[k - 1] as int,
                            ));
                        }
                    }
                } else {
                    assert(after[j] == before[j - 1] && after[k] == before[k - 1]);
                }
            }
            assert forall|k: int| 0 <= k < after.len() implies (#[trigger] after[k]) < i + 1 by {
                if k < p {
                    assert(after[k] == before[k]);
                } else if k > p {
                    assert(after[k] == before[k - 1]);
                }
            }
        }
        i = i + 1;
    }
    order
}

} // verus!
