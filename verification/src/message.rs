//! The words shown to the user. A message of success begins with the mark
//! of success and names the drive; a message of failure begins with the
//! mark of failure, and a refusal of the known kind is never shown in the
//! platform's words: it is replaced by the advice to restart.

use vstd::prelude::*;
use vstd::string::StringExecFns;
use crate::drive::label_of;
use crate::failure::{detail_of, known_veto, Failure, FailureView};

verus! {

/// What was being attempted when a failure came up.
#[derive(Clone, Copy, Debug, PartialEq, Eq)]
pub enum Attempt {
    /// The plain eject that a scan begins with.
    Soft,
    /// The eject after the occupants were cleared by force.
    Forced,
    /// The volume was to be dismounted by the platform's own utility.
    Dismount,
    /// The eject after the utility had dismounted the volume.
    AfterDismount,
}

/// The mark that opens a message of success.
pub open spec fn success_mark() -> Seq<char> {
    "✅ "@
}

/// The mark that opens a message of failure.
pub open spec fn failure_mark() -> Seq<char> {
    "❌ "@
}

/// The advice that replaces a refusal of the known kind.
pub open spec fn restart_advice() -> Seq<char> {
    "系统核心组件锁定，强制移除失败。请重启电脑。"@
}

/// The words that introduce a failure, by what was attempted.
pub open spec fn lead_of(attempt: Attempt) -> Seq<char> {
    match attempt {
        Attempt::Soft => "弹出失败："@,
        Attempt::Forced => ""@,
        Attempt::Dismount => "fsutil 执行失败："@,
        Attempt::AfterDismount => "fsutil 成功但弹出失败："@,
    }
}

/// The message of a failure: the advice to restart for a refusal of the
/// known kind, the lead and the failure's own words otherwise.
pub open spec fn failure_text(attempt: Attempt, f: FailureView) -> Seq<char> {
    if known_veto(f) {
        failure_mark() + restart_advice()
    } else {
        failure_mark() + lead_of(attempt) + detail_of(f)
    }
}

/// The message of a plain eject that succeeded.
pub open spec fn ejected_text(drive: Seq<char>) -> Seq<char> {
    success_mark() + "驱动器 "@ + label_of(drive) + " 已安全弹出"@
}

/// The message of a forced eject that succeeded.
pub open spec fn forced_text(drive: Seq<char>) -> Seq<char> {
    success_mark() + "驱动器 "@ + label_of(drive) + " 已强制弹出"@
}

/// The message of an eject that succeeded after the utility's dismount.
pub open spec fn dismounted_text(drive: Seq<char>) -> Seq<char> {
    success_mark() + "驱动器 "@ + label_of(drive) + " 已安全弹出 (fsutil)"@
}

/// The notice shown while one occupant is being terminated.
pub open spec fn terminating_text(drive: Seq<char>) -> Seq<char> {
    label_of(drive) + " 正在终止占用进程..."@
}

/// The notice shown while the occupants are being cleared by force.
pub open spec fn clearing_text(drive: Seq<char>) -> Seq<char> {
    label_of(drive) + " 正在强制清场..."@
}

/// The notice shown while the utility dismounts the volume.
pub open spec fn dismounting_text(drive: Seq<char>) -> Seq<char> {
    label_of(drive) + " 正在执行 fsutil dismount..."@
}

/// The notice shown once the utility has dismounted the volume.
pub open spec fn dismount_done_text(drive: Seq<char>) -> Seq<char> {
    label_of(drive) + " 卷已强制卸载，尝试弹出..."@
}

/// A refusal of the known kind is always shown as the advice to restart,
/// whatever was being attempted and whatever codes or words it came with.
pub proof fn lemma_known_veto_is_rewritten(attempt: Attempt, f: FailureView)
    requires
        known_veto(f),
    ensures
        failure_text(attempt, f) == failure_mark() + restart_advice(),
{
}

/// `head`, the label of `drive`, then `tail`.
fn around_label(head: &str, drive: &str, tail: &str) -> (s: String)
    ensures
        s@ == head@ + label_of(drive@) + tail@,
{
    let mut s = String::from_str(head);
    s.append(drive);
    s.append(":");
    s.append(tail);
    proof {
        reveal_strlit(":");
        assert(":"@ == seq![':']);
        assert(s@ == head@ + label_of(drive@) + tail@);
    }
    s
}

/// The message of a failure.
pub fn failure_message(attempt: Attempt, f: &Failure) -> (s: String)
    ensures
        s@ == failure_text(attempt, f@),
{
    let mut s = String::from_str("❌ ");
    if f.is_known_veto() {
        s.append("系统核心组件锁定，强制移除失败。请重启电脑。");
    } else {
        match attempt {
            Attempt::Soft => s.append("弹出失败："),
            Attempt::Forced => s.append(""),
            Attempt::Dismount => s.append("fsutil 执行失败："),
            Attempt::AfterDismount => s.append("fsutil 成功但弹出失败："),
        }
        s.append(f.detail().as_str());
    }
    s
}

/// The message of a plain eject that succeeded.
pub fn ejected_message(drive: &str) -> (s: String)
    ensures
        s@ == ejected_text(drive@),
{
    let s = around_label("✅ 驱动器 ", drive, " 已安全弹出");
    proof {
        lemma_success_lead();
    }
    s
}

/// The message of a forced eject that succeeded.
pub fn forced_message(drive: &str) -> (s: String)
    ensures
        s@ == forced_text(drive@),
{
    let s = around_label("✅ 驱动器 ", drive, " 已强制弹出");
    proof {
        lemma_success_lead();
    }
    s
}

/// The message of an eject that succeeded after the utility's dismount.
pub fn dismounted_message(drive: &str) -> (s: String)
    ensures
        s@ == dismounted_text(drive@),
{
    let s = around_label("✅ 驱动器 ", drive, " 已安全弹出 (fsutil)");
    proof {
        lemma_success_lead();
    }
    s
}

/// The notice shown while one occupant is being terminated.
pub fn terminating_notice(drive: &str) -> (s: String)
    ensures
        s@ == terminating_text(drive@),
{
    let s = around_label("", drive, " 正在终止占用进程...");
    proof {
        reveal_strlit("");
        assert(""@ + label_of(drive@) == label_of(drive@));
    }
    s
}

/// The notice shown while the occupants are being cleared by force.
pub fn clearing_notice(drive: &str) -> (s: String)
    ensures
        s@ == clearing_text(drive@),
{
    let s = around_label("", drive, " 正在强制清场...");
    proof {
        reveal_strlit("");
        assert(""@ + label_of(drive@) == label_of(drive@));
    }
    s
}

/// The notice shown while the utility dismounts the volume.
pub fn dismounting_notice(drive: &str) -> (s: String)
    ensures
        s@ == dismounting_text(drive@),
{
    let s = around_label("", drive, " 正在执行 fsutil dismount...");
    proof {
        reveal_strlit("");
        assert(""@ + label_of(drive@) == label_of(drive@));
    }
    s
}

/// The notice shown once the utility has dismounted the volume.
pub fn dismount_done_notice(drive: &str) -> (s: String)
    ensures
        s@ == dismount_done_text(drive@),
{
    let s = around_label("", drive, " 卷已强制卸载，尝试弹出...");
    proof {
        reveal_strlit("");
        assert(""@ + label_of(drive@) == label_of(drive@));
    }
    s
}

/// The lead of a message of success is the mark of success and the word
/// for a drive.
proof fn lemma_success_lead()
    ensures
        "✅ 驱动器 "@ == success_mark() + "驱动器 "@,
{
    reveal_strlit("✅ 驱动器 ");
    reveal_strlit("✅ ");
    reveal_strlit("驱动器 ");
    assert("✅ 驱动器 "@ =~= "✅ "@ + "驱动器 "@);
}

} // verus!
