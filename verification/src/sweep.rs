//! The sweep of the process table: the processes that run from a drive or
//! work in one of its directories, found by their paths. The sweep finds
//! what the resource session does not report, a process without an open
//! handle on the volume.

use vstd::prelude::*;
use vstd::string::StringExecFns;
use crate::drive::{canonical, drive_label, label_of, norm_drive};
use crate::occupant::{Occupant, OccupantView};
use crate::text::{chars_of, text_of, to_upper, upper};

verus! {

/// A process as the process table shows it.
#[derive(Clone, Debug, PartialEq, Eq)]
pub struct ProcessRow {
    pub pid: u32,
    pub name: String,
    /// The path of the program, where the table tells it.
    pub exe: Option<String>,
    /// The working directory, where the table tells it.
    pub cwd: Option<String>,
}

/// The mathematical model of a [`ProcessRow`].
pub struct ProcessRowView {
    pub pid: u32,
    pub name: Seq<char>,
    pub exe: Option<Seq<char>>,
    pub cwd: Option<Seq<char>>,
}

impl View for ProcessRow {
    type V = ProcessRowView;

    open spec fn view(&self) -> ProcessRowView {
        ProcessRowView {
            pid: self.pid,
            name: self.name@,
            exe: text_of(self.exe),
            cwd: text_of(self.cwd),
        }
    }
}

impl DeepView for ProcessRow {
    type V = ProcessRowView;

    open spec fn deep_view(&self) -> ProcessRowView {
        self@
    }
}

/// How a process holds a drive.
#[derive(Clone, Copy, Debug, PartialEq, Eq)]
pub enum Hold {
    /// Its program lies on the drive.
    Running,
    /// Its working directory lies on the drive.
    WorkingDirectory,
}

/// A process that the sweep found on a drive.
#[derive(Clone, Debug, PartialEq, Eq)]
pub struct Suspect {
    pub pid: u32,
    pub name: String,
    /// The path of the program, where the table told it.
    pub exe: Option<String>,
    pub hold: Hold,
}

/// The mathematical model of a [`Suspect`].
pub struct SuspectView {
    pub pid: u32,
    pub name: Seq<char>,
    pub exe: Option<Seq<char>>,
    pub hold: Hold,
}

impl View for Suspect {
    type V = SuspectView;

    open spec fn view(&self) -> SuspectView {
        SuspectView { pid: self.pid, name: self.name@, exe: text_of(self.exe), hold: self.hold }
    }
}

impl DeepView for Suspect {
    type V = SuspectView;

    open spec fn deep_view(&self) -> SuspectView {
        self@
    }
}

/// `path` begins with `prefix`, the case of ASCII letters in `path` set
/// aside.
pub open spec fn begins_with_folded(path: Seq<char>, prefix: Seq<char>) -> bool {
    &&& prefix.len() <= path.len()
    &&& forall|k: int| 0 <= k < prefix.len() ==> upper(path[k]) == prefix[k]
}

/// `path` lies on the drive: it begins with the drive's label, in either
/// case.
pub open spec fn lies_on(path: Seq<char>, drive: Seq<char>) -> bool {
    begins_with_folded(path, label_of(canonical(drive)))
}

/// How the process of a row holds the drive, if it does: by its program
/// first, by its working directory otherwise.
pub open spec fn hold_of(row: ProcessRowView, drive: Seq<char>) -> Option<Hold> {
    if row.exe is Some && lies_on(row.exe->0, drive) {
        Some(Hold::Running)
    } else if row.cwd is Some && lies_on(row.cwd->0, drive) {
        Some(Hold::WorkingDirectory)
    } else {
        None
    }
}

/// The processes of the table that hold the drive, in the order of the
/// table.
pub open spec fn suspects_of(rows: Seq<ProcessRowView>, drive: Seq<char>) -> Seq<SuspectView>
    decreases rows.len(),
{
    if rows.len() == 0 {
        Seq::empty()
    } else {
        let found = suspects_of(rows.drop_last(), drive);
        let row = rows.last();
        match hold_of(row, drive) {
            Some(hold) => found.push(
                SuspectView { pid: row.pid, name: row.name, exe: row.exe, hold },
            ),
            None => found,
        }
    }
}

/// The words for a hold.
pub open spec fn hold_text(hold: Hold) -> Seq<char> {
    match hold {
        Hold::Running => "正在运行"@,
        Hold::WorkingDirectory => "工作目录"@,
    }
}

/// The occupant that stands for a suspect: described by what its program
/// file says of itself where that is known, by its name otherwise, with
/// the hold in brackets.
pub open spec fn described(s: SuspectView, description: Option<Seq<char>>) -> OccupantView {
    let subject = if s.exe is Some && description is Some {
        description->0
    } else {
        s.name
    };
    OccupantView {
        pid: s.pid,
        name: s.name,
        desc: subject + " ("@ + hold_text(s.hold) + ")"@,
    }
}

/// Every suspect stands for a row of the table that holds the drive, and
/// no more suspects are found than the table has rows.
pub proof fn lemma_suspects_come_from_rows(rows: Seq<ProcessRowView>, drive: Seq<char>)
    ensures
        suspects_of(rows, drive).len() <= rows.len(),
        forall|k: int|
            0 <= k < suspects_of(rows, drive).len() ==> exists|i: int|
                0 <= i < rows.len() && hold_of(rows[i], drive) == Some(
                    (#[trigger] suspects_of(rows, drive)[k]).hold,
                ) && rows[i].pid == suspects_of(rows, drive)[k].pid,
        forall|i: int|
            0 <= i < rows.len() && hold_of(#[trigger] rows[i], drive) is Some ==> exists|k: int|
                0 <= k < suspects_of(rows, drive).len() && suspects_of(rows, drive)[k].pid
                    == rows[i].pid,
    decreases rows.len(),
{
    if rows.len() > 0 {
        let front = rows.drop_last();
        lemma_suspects_come_from_rows(front, drive);
        let found = suspects_of(front, drive);
        let out = suspects_of(rows, drive);
        assert forall|k: int| 0 <= k < out.len() implies exists|i: int|
            0 <= i < rows.len() && hold_of(rows[i], drive) == Some((#[trigger] out[k]).hold)
                && rows[i].pid == out[k].pid by {
            if k < found.len() {
                assert(out[k] == found[k]);
                let i = choose|i: int|
                    0 <= i < front.len() && hold_of(front[i], drive) == Some(found[k].hold)
                        && front[i].pid == found[k].pid;
                assert(rows[i] == front[i]);
            } else {
                assert(hold_of(rows[rows.len() - 1], drive) == Some(out[k].hold));
            }
        }
        assert forall|i: int|
            0 <= i < rows.len() && hold_of(#[trigger] rows[i], drive) is Some implies exists|
            k: int,
        | 0 <= k < out.len() && out[k].pid == rows[i].pid by {
            if i < front.len() {
                assert(rows[i] == front[i]);
                let k = choose|k: int| 0 <= k < found.len() && found[k].pid == front[i].pid;
                assert(out[k] == found[k]);
            } else {
                assert(out[out.len() - 1].pid == rows[i].pid);
            }
        }
    }
}

/// Whether `path` begins with `prefix`, the case of ASCII letters in `path`
/// set aside.
pub fn starts_with_folded(path: &Vec<char>, prefix: &Vec<char>) -> (b: bool)
    ensures
        b == begins_with_folded(path@, prefix@),
{
    if prefix.len() > path.len() {
        return false;
    }
    let mut k: usize = 0;
    while k < prefix.len()
        invariant
            k <= prefix.len(),
            prefix.len() <= path.len(),
            forall|j: int| 0 <= j < k ==> upper(path@[j]) == prefix@[j],
        decreases prefix.len() - k,
    {
        if to_upper(path[k]) != prefix[k] {
            return false;
        }
        k = k + 1;
    }
    true
}

/// Whether a path that may be there lies under `prefix`.
fn lies_under(path: &Option<String>, prefix: &Vec<char>) -> (b: bool)
    ensures
        b == (text_of(*path) is Some && begins_with_folded(text_of(*path)->0, prefix@)),
{
    match path {
        Some(p) => {
            let chars = chars_of(p.as_str());
            starts_with_folded(&chars, prefix)
        },
        None => false,
    }
}

/// A copy of a text that may be there.
fn copy_text(s: &Option<String>) -> (out: Option<String>)
    ensures
        text_of(out) == text_of(*s),
{
    match s {
        Some(text) => Some(text.clone()),
        None => None,
    }
}

/// The processes of the table that hold the drive, in the order of the
/// table.
pub fn sweep(rows: &Vec<ProcessRow>, drive: &str) -> (found: Vec<Suspect>)
    ensures
        found.deep_view() == suspects_of(rows.deep_view(), drive@),
{
    let label = drive_label(norm_drive(drive).as_str());
    let prefix = chars_of(label.as_str());
    let mut found: Vec<Suspect> = Vec::new();
    let mut i: usize = 0;
    assert(rows.deep_view().subrange(0, 0) == Seq::<ProcessRowView>::empty());
    while i < rows.len()
        invariant
            i <= rows.len(),
            prefix@ == label_of(canonical(drive@)),
            found.deep_view() == suspects_of(rows.deep_view().subrange(0, i as int), drive@),
        decreases rows.len() - i,
    {
        let row = &rows[i];
        assert(rows.deep_view().subrange(0, i + 1).drop_last() == rows.deep_view().subrange(
            0,
            i as int,
        ));
        assert(rows.deep_view().subrange(0, i + 1).last() == row@);
        let ghost before = found.deep_view();
        if lies_under(&row.exe, &prefix) {
            let suspect = Suspect {
                pid: row.pid,
                name: row.name.clone(),
                exe: copy_text(&row.exe),
                hold: Hold::Running,
            };
            found.push(suspect);
            assert(found.deep_view() == before.push(suspect@));
        } else if lies_under(&row.cwd, &prefix) {
            let suspect = Suspect {
                pid: row.pid,
                name: row.name.clone(),
                exe: copy_text(&row.exe),
                hold: Hold::WorkingDirectory,
            };
            found.push(suspect);
            assert(found.deep_view() == before.push(suspect@));
        }
        i = i + 1;
    }
    assert(rows.deep_view().subrange(0, rows.len() as int) == rows.deep_view());
    found
}

impl Suspect {
    /// The occupant that stands for this suspect. `description` is what the
    /// program file says of itself, where the caller could read it.
    pub fn describe(&self, description: Option<String>) -> (o: Occupant)
        ensures
            o@ == described(self@, text_of(description)),
    {
        let mut desc = match (&self.exe, description) {
            (Some(_), Some(d)) => d,
            _ => self.name.clone(),
        };
        desc.append(" (");
        match self.hold {
            Hold::Running => desc.append("正在运行"),
            Hold::WorkingDirectory => desc.append("工作目录"),
        }
        desc.append(")");
        Occupant { pid: self.pid, name: self.name.clone(), desc }
    }
}

/// `sysinfo::System`, the process table of the machine.
#[verifier::external_type_specification]
#[verifier::external_body]
pub struct ExSystem(sysinfo::System);

/// `sysinfo::System::new`: a table with nothing loaded.
#[verifier::external_body]
fn empty_table() -> (table: sysinfo::System) {
    sysinfo::System::new()
}

/// `sysinfo::System::refresh_processes_specifics`: loads every process
/// that runs into the table, with the path of its program and its working
/// directory, and drops those that have ended. Nothing is promised of what
/// the table then holds.
#[verifier::external_body]
fn load_processes(table: &mut sysinfo::System) {
    table.refresh_processes_specifics(
        sysinfo::ProcessesToUpdate::All,
        true,
        sysinfo::ProcessRefreshKind::new().with_exe(sysinfo::UpdateKind::Always).with_cwd(
            sysinfo::UpdateKind::Always,
        ),
    );
}

/// `sysinfo::System::processes`: hands the processes of the table out, each
/// as a row of plain values. A path that is no valid text is left out of
/// its row. Nothing is promised of the rows or of their order.
#[verifier::external_body]
fn rows_of(table: &sysinfo::System) -> (rows: Vec<ProcessRow>) {
    table.processes().iter().map(
        |(pid, p)|
            ProcessRow {
                pid: pid.as_u32(),
                name: p.name().to_string_lossy().to_string(),
                exe: p.exe().and_then(|path| path.to_str()).map(|s| s.to_string()),
                cwd: p.cwd().and_then(|path| path.to_str()).map(|s| s.to_string()),
            },
    ).collect()
}

/// The process table of the machine as it is now: what it holds is the machine's to say.
pub fn process_table() -> (rows: Vec<ProcessRow>) {
    let mut table = empty_table();
    load_processes(&mut table);
    rows_of(&table)
}

/// The processes of the machine that hold the drive now. Whatever the
/// table holds, each process found stands for one of its rows.
pub fn scan_processes(drive: &str) -> (found: Vec<Suspect>)
    ensures
        exists|rows: Seq<ProcessRowView>| found.deep_view() == #[trigger] suspects_of(rows, drive@),
{
    let rows = process_table();
    let found = sweep(&rows, drive);
    assert(found.deep_view() == suspects_of(rows.deep_view(), drive@));
    found
}

} // verus!
