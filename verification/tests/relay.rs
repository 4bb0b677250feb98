use geek_killer::coordinator::Reply;
use geek_killer::failure::Failure;
use geek_killer::hardware::Removal;
use geek_killer::occupant::Occupant;
use geek_killer::relay::{outcome_reply, removal_reply, session_reply, smart_words_reply};
use geek_killer::session::{SessionError, SessionResult, SessionStage};
use geek_killer::smart::SmartReply;

#[test]
fn the_end_of_an_eject_becomes_a_reply() {
    assert_eq!(outcome_reply(None), Reply::Succeeded);
    assert_eq!(outcome_reply(Some(Failure::NotFound)), Reply::Failed(Failure::NotFound));
}

#[test]
fn the_end_of_a_session_becomes_a_reply() {
    let list = vec![Occupant { pid: 1, name: "a".to_string(), desc: "b".to_string() }];
    assert_eq!(session_reply(SessionResult::Occupants(list.clone())), Reply::Occupants(list));
    assert_eq!(session_reply(SessionResult::Released), Reply::Succeeded);
    assert_eq!(
        session_reply(SessionResult::Failed(SessionError {
            stage: SessionStage::Register,
            status: 5,
        })),
        Reply::Failed(Failure::FacilityUnavailable)
    );
}

#[test]
fn the_words_of_an_eject_by_letter_are_classified() {
    assert_eq!(smart_words_reply(None), SmartReply::Removed);
    assert_eq!(
        smart_words_reply(Some("VetoType: 6".to_string())),
        SmartReply::Failed(Failure::HardwareVeto { status: 0, veto: 6 })
    );
    assert_eq!(
        smart_words_reply(Some("busy".to_string())),
        SmartReply::Failed(Failure::Unknown("busy".to_string()))
    );
    assert_eq!(
        smart_words_reply(Some("CONFIGRET(23)".to_string())),
        SmartReply::Failed(Failure::HardwareVeto { status: 23, veto: 0 })
    );
}

#[test]
fn the_end_of_a_hardware_attempt_becomes_a_reply() {
    assert_eq!(removal_reply(Removal::Removed), SmartReply::Removed);
    assert_eq!(removal_reply(Removal::NoMatch), SmartReply::Failed(Failure::NotFound));
    assert_eq!(
        removal_reply(Removal::Unavailable),
        SmartReply::Failed(Failure::FacilityUnavailable)
    );
    assert_eq!(
        removal_reply(Removal::Refused { status: 23, veto: 6 }),
        SmartReply::Failed(Failure::HardwareVeto { status: 23, veto: 6 })
    );
}
