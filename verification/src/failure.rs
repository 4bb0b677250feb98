//! Why an eject step failed. Every failure of the platform is put into one
//! of five classes where it arises; a refusal by the bus keeps the codes it
//! came with, so that the known refusals can be told from the others.

use vstd::prelude::*;
use vstd::string::StringExecFns;
use crate::text::{contains, decimal, decimal_text, occurs};

verus! {

/// The status with which the platform reports that a removal was vetoed.
pub const STATUS_VETOED: u32 = 23;

/// The veto type of the refusals that only a restart clears.
pub const VETO_DEVICE: u32 = 6;

/// The platform's code for a refused access.
pub const CODE_ACCESS_DENIED: u32 = 5;

/// A classified failure.
#[derive(Clone, Debug, PartialEq, Eq)]
pub enum Failure {
    /// The volume exists and the caller may not open it.
    AccessDenied,
    /// No such volume or device.
    NotFound,
    /// The platform could not list its devices or open a resource session.
    FacilityUnavailable,
    /// The bus refused the removal, with the platform's status and the veto
    /// type it gave (0 where it gave none).
    HardwareVeto { status: u32, veto: u32 },
    /// Anything else, with the platform's own words.
    Unknown(String),
}

/// The mathematical model of a [`Failure`].
pub enum FailureView {
    AccessDenied,
    NotFound,
    FacilityUnavailable,
    HardwareVeto { status: u32, veto: u32 },
    Unknown(Seq<char>),
}

impl View for Failure {
    type V = FailureView;

    open spec fn view(&self) -> FailureView {
        match self {
            Failure::AccessDenied => FailureView::AccessDenied,
            Failure::NotFound => FailureView::NotFound,
            Failure::FacilityUnavailable => FailureView::FacilityUnavailable,
            Failure::HardwareVeto { status, veto } => FailureView::HardwareVeto {
                status: *status,
                veto: *veto,
            },
            Failure::Unknown(raw) => FailureView::Unknown(raw@),
        }
    }
}

impl DeepView for Failure {
    type V = FailureView;

    open spec fn deep_view(&self) -> FailureView {
        self@
    }
}

/// The model of a failure that may be there.
pub open spec fn model_of(f: Option<Failure>) -> Option<FailureView> {
    match f {
        Some(failure) => Some(failure@),
        None => None,
    }
}

/// The mark of a veto type in the platform's words.
pub open spec fn veto_mark() -> Seq<char> {
    "VetoType: 6"@
}

/// The mark of a vetoed removal in the platform's words.
pub open spec fn status_mark() -> Seq<char> {
    "CONFIGRET(23)"@
}

/// The words of the platform carry one of the two marks of a veto.
pub open spec fn carries_mark(raw: Seq<char>) -> bool {
    occurs(raw, veto_mark()) || occurs(raw, status_mark())
}

/// The class of a failure that the platform reported in words: a refusal by
/// the bus, with the codes that the marks stand for, where the words carry
/// one of the two marks; unknown, with the words kept, otherwise.
pub open spec fn class_of_text(raw: Seq<char>) -> FailureView {
    if carries_mark(raw) {
        FailureView::HardwareVeto {
            status: if occurs(raw, status_mark()) { STATUS_VETOED } else { 0 },
            veto: if occurs(raw, veto_mark()) { VETO_DEVICE } else { 0 },
        }
    } else {
        FailureView::Unknown(raw)
    }
}

/// The class of a failure to open a volume, from the platform's code.
pub open spec fn class_of_open_error(code: u32) -> FailureView {
    if code == CODE_ACCESS_DENIED {
        FailureView::AccessDenied
    } else {
        FailureView::NotFound
    }
}

/// A refusal of the known kind: the bus vetoed the removal, or the veto came
/// from the device itself. It is known by its codes, and in a failure that
/// was kept in the platform's words by the marks that the words carry.
pub open spec fn known_veto(f: FailureView) -> bool {
    match f {
        FailureView::HardwareVeto { status, veto } => status == STATUS_VETOED || veto
            == VETO_DEVICE,
        FailureView::Unknown(raw) => carries_mark(raw),
        _ => false,
    }
}

/// The words that describe a failure where it is shown as it is.
pub open spec fn detail_of(f: FailureView) -> Seq<char> {
    match f {
        FailureView::AccessDenied => "无法打开驱动器 (权限不足或不存在)"@,
        FailureView::NotFound => "无法打开驱动器 (权限不足或不存在)"@,
        FailureView::FacilityUnavailable => "无法枚举磁盘设备列表"@,
        FailureView::HardwareVeto { status, veto } => "硬件拒绝弹出 (CONFIGRET("@ + decimal(
            status as nat,
        ) + "), VetoType: "@ + decimal(veto as nat) + ")。请尝试关闭所有窗口后重试。"@,
        FailureView::Unknown(raw) => raw,
    }
}

/// Words that carry a mark are a refusal of the known kind however they
/// are kept: classified, or as they came.
pub proof fn lemma_marked_words_are_a_known_veto(raw: Seq<char>)
    ensures
        known_veto(class_of_text(raw)) == carries_mark(raw),
        known_veto(FailureView::Unknown(raw)) == carries_mark(raw),
{
}

impl Failure {
    /// Classifies a failure that the platform reported in words.
    pub fn from_text(raw: &str) -> (f: Failure)
        ensures
            f@ == class_of_text(raw@),
    {
        let veto = contains(raw, "VetoType: 6");
        let status = contains(raw, "CONFIGRET(23)");
        if veto || status {
            Failure::HardwareVeto {
                status: if status { STATUS_VETOED } else { 0 },
                veto: if veto { VETO_DEVICE } else { 0 },
            }
        } else {
            Failure::Unknown(String::from_str(raw))
        }
    }

    /// Classifies a failure to open a volume.
    pub fn from_open_error(code: u32) -> (f: Failure)
        ensures
            f@ == class_of_open_error(code),
    {
        if code == CODE_ACCESS_DENIED {
            Failure::AccessDenied
        } else {
            Failure::NotFound
        }
    }

    /// Whether this is a refusal of the known kind.
    pub fn is_known_veto(&self) -> (b: bool)
        ensures
            b == known_veto(self@),
    {
        match self {
            Failure::HardwareVeto { status, veto } => *status == STATUS_VETOED || *veto
                == VETO_DEVICE,
            Failure::Unknown(raw) => contains(raw.as_str(), "VetoType: 6") || contains(
                raw.as_str(),
                "CONFIGRET(23)",
            ),
            _ => false,
        }
    }

    /// A copy of this failure.
    pub fn duplicate(&self) -> (f: Failure)
        ensures
            f@ == self@,
    {
        match self {
            Failure::AccessDenied => Failure::AccessDenied,
            Failure::NotFound => Failure::NotFound,
            Failure::FacilityUnavailable => Failure::FacilityUnavailable,
            Failure::HardwareVeto { status, veto } => Failure::HardwareVeto {
                status: *status,
                veto: *veto,
            },
            Failure::Unknown(raw) => Failure::Unknown(raw.clone()),
        }
    }

    /// The words that describe this failure where it is shown as it is.
    pub fn detail(&self) -> (s: String)
        ensures
            s@ == detail_of(self@),
    {
        match self {
            Failure::AccessDenied => String::from_str("无法打开驱动器 (权限不足或不存在)"),
            Failure::NotFound => String::from_str("无法打开驱动器 (权限不足或不存在)"),
            Failure::FacilityUnavailable => String::from_str("无法枚举磁盘设备列表"),
            Failure::HardwareVeto { status, veto } => {
                let mut s = String::from_str("硬件拒绝弹出 (CONFIGRET(");
                s.append(decimal_text(*status).as_str());
                s.append("), VetoType: ");
                s.append(decimal_text(*veto).as_str());
                s.append(")。请尝试关闭所有窗口后重试。");
                s
            },
            Failure::Unknown(raw) => raw.clone(),
        }
    }
}

} // verus!
