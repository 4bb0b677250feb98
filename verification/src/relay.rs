//! From the end of one protocol to the reply that another waits for: the
//! coordinator asks for a listing, an eject or a dismount as one request
//! each, and the caller answers with what the session, the smart eject or
//! the utility came to.

use vstd::prelude::*;
use crate::coordinator::{Reply, ReplyView};
use crate::failure::{class_of_text, model_of, Failure, FailureView};
use crate::hardware::{failure_of, Removal};
use crate::session::{SessionResult, SessionResultView};
use crate::smart::{SmartReply, SmartReplyView};
use crate::text::text_of;

verus! {

/// The reply that stands for the end of an eject or a dismount.
pub open spec fn reply_of_outcome(outcome: Option<FailureView>) -> ReplyView {
    match outcome {
        None => ReplyView::Succeeded,
        Some(f) => ReplyView::Failed(f),
    }
}

/// The reply that stands for the end of a session. A refusal by the
/// platform is no reason to stop: it counts as a facility that is not
/// there, and the coordinator goes on without it.
pub open spec fn reply_of_session(result: SessionResultView) -> ReplyView {
    match result {
        SessionResultView::Occupants(list) => ReplyView::Occupants(list),
        SessionResultView::Released => ReplyView::Succeeded,
        SessionResultView::Failed(_) => ReplyView::Failed(FailureView::FacilityUnavailable),
    }
}

/// The reply to the smart eject that stands for the end of an attempt by
/// the hardware ejector.
pub open spec fn smart_reply_of_removal(removal: Removal) -> SmartReplyView {
    match failure_of(removal) {
        None => SmartReplyView::Removed,
        Some(f) => SmartReplyView::Failed(f),
    }
}

/// The reply to the smart eject that stands for an eject by letter, which
/// tells of a failure in words: none for a removal.
pub open spec fn smart_reply_of_words(words: Option<Seq<char>>) -> SmartReplyView {
    match words {
        None => SmartReplyView::Removed,
        Some(raw) => SmartReplyView::Failed(class_of_text(raw)),
    }
}

/// The reply that stands for the end of an eject or a dismount.
pub fn outcome_reply(outcome: Option<Failure>) -> (reply: Reply)
    ensures
        reply@ == reply_of_outcome(model_of(outcome)),
{
    match outcome {
        None => Reply::Succeeded,
        Some(f) => Reply::Failed(f),
    }
}

/// The reply that stands for the end of a session.
pub fn session_reply(result: SessionResult) -> (reply: Reply)
    ensures
        reply@ == reply_of_session(result@),
{
    match result {
        SessionResult::Occupants(list) => Reply::Occupants(list),
        SessionResult::Released => Reply::Succeeded,
        SessionResult::Failed(_) => Reply::Failed(Failure::FacilityUnavailable),
    }
}

/// The reply to the smart eject that stands for the end of an attempt by
/// the hardware ejector.
pub fn removal_reply(removal: Removal) -> (reply: SmartReply)
    ensures
        reply@ == smart_reply_of_removal(removal),
{
    match removal.failure() {
        None => SmartReply::Removed,
        Some(f) => SmartReply::Failed(f),
    }
}

/// The reply to the smart eject that stands for an eject by letter.
pub fn smart_words_reply(words: Option<String>) -> (reply: SmartReply)
    ensures
        reply@ == smart_reply_of_words(text_of(words)),
{
    match words {
        None => SmartReply::Removed,
        Some(raw) => SmartReply::Failed(Failure::from_text(raw.as_str())),
    }
}

} // verus!
