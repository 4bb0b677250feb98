use geek_killer::occupant::Occupant;
use geek_killer::session::{
    list_occupants, occupant_from_record, occupants_from_records, session_paths,
    shutdown_occupants, Purpose, ResourceSession, SessionError, SessionRecord, SessionReply,
    SessionRequest, SessionResult, SessionStage, STATUS_MORE_DATA, STATUS_NONE,
};

fn record(pid: u32, app: &str, service: &str) -> SessionRecord {
    SessionRecord { pid, app_name: app.to_string(), service_name: service.to_string() }
}

fn run_session(
    start: (ResourceSession, SessionRequest),
    replies: Vec<SessionReply>,
) -> Vec<SessionRequest> {
    let (mut session, first) = start;
    let mut requests = vec![first];
    for reply in replies {
        let (next, request) = session.step(reply);
        session = next;
        requests.push(request);
    }
    requests
}

fn failed(stage: SessionStage, status: u32) -> SessionRequest {
    SessionRequest::Finished(SessionResult::Failed(SessionError { stage, status }))
}

#[test]
fn a_listing_registers_both_paths_and_asks_twice() {
    let requests = run_session(
        list_occupants("i:"),
        vec![
            SessionReply::Status(0),
            SessionReply::Volume(Some("\\\\?\\Volume{abc}".to_string())),
            SessionReply::Status(0),
            SessionReply::Listed { status: STATUS_MORE_DATA, needed: 2, records: vec![] },
            SessionReply::Listed {
                status: 0,
                needed: 2,
                records: vec![record(4321, "notepad.exe", ""), record(8, "", "Spooler")],
            },
            SessionReply::Ack,
        ],
    );
    assert_eq!(
        requests,
        vec![
            SessionRequest::Start,
            SessionRequest::ResolveVolume("I:\\".to_string()),
            SessionRequest::Register(vec![
                "I:\\".to_string(),
                "\\\\?\\Volume{abc}\\".to_string(),
            ]),
            SessionRequest::List(0),
            SessionRequest::List(2),
            SessionRequest::End,
            SessionRequest::Finished(SessionResult::Occupants(vec![
                Occupant {
                    pid: 4321,
                    name: "notepad.exe".to_string(),
                    desc: "RestartManager：notepad.exe".to_string(),
                },
                Occupant {
                    pid: 8,
                    name: "Unknown".to_string(),
                    desc: "RestartManager： (服务:Spooler)".to_string(),
                },
            ])),
        ]
    );
}

#[test]
fn a_session_that_knows_nobody_is_ended_after_one_question() {
    let requests = run_session(
        list_occupants("I"),
        vec![
            SessionReply::Status(0),
            SessionReply::Volume(None),
            SessionReply::Status(0),
            SessionReply::Listed { status: 0, needed: 0, records: vec![] },
            SessionReply::Ack,
            SessionReply::Ack,
        ],
    );
    assert_eq!(requests[2], SessionRequest::Register(vec!["I:\\".to_string()]));
    assert_eq!(
        &requests[4..],
        &[
            SessionRequest::End,
            SessionRequest::Finished(SessionResult::Occupants(vec![])),
            SessionRequest::Finished(SessionResult::Occupants(vec![])),
        ]
    );
}

#[test]
fn a_session_that_cannot_be_opened_is_not_ended() {
    let requests = run_session(list_occupants("I"), vec![SessionReply::Status(5)]);
    assert_eq!(requests, vec![SessionRequest::Start, failed(SessionStage::Start, 5)]);
    let requests = run_session(list_occupants("I"), vec![SessionReply::Ack]);
    assert_eq!(requests[1], failed(SessionStage::Start, STATUS_NONE));
}

#[test]
fn every_refusal_after_the_start_ends_the_session_first() {
    let requests = run_session(
        list_occupants("I"),
        vec![
            SessionReply::Status(0),
            SessionReply::Volume(None),
            SessionReply::Status(160),
            SessionReply::Ack,
        ],
    );
    assert_eq!(&requests[3..], &[SessionRequest::End, failed(SessionStage::Register, 160)]);

    let requests = run_session(
        list_occupants("I"),
        vec![
            SessionReply::Status(0),
            SessionReply::Volume(None),
            SessionReply::Status(0),
            SessionReply::Listed { status: 6, needed: 3, records: vec![] },
            SessionReply::Ack,
        ],
    );
    assert_eq!(&requests[4..], &[SessionRequest::End, failed(SessionStage::Size, 6)]);

    let requests = run_session(
        list_occupants("I"),
        vec![
            SessionReply::Status(0),
            SessionReply::Volume(None),
            SessionReply::Status(0),
            SessionReply::Listed { status: 234, needed: 3, records: vec![] },
            SessionReply::Listed { status: 234, needed: 4, records: vec![] },
            SessionReply::Ack,
        ],
    );
    assert_eq!(
        &requests[4..],
        &[SessionRequest::List(3), SessionRequest::End, failed(SessionStage::Fill, 234)]
    );
}

#[test]
fn a_release_shuts_the_occupants_down() {
    let requests = run_session(
        shutdown_occupants("e", true),
        vec![
            SessionReply::Status(0),
            SessionReply::Volume(None),
            SessionReply::Status(0),
            SessionReply::Status(0),
            SessionReply::Ack,
        ],
    );
    assert_eq!(
        requests,
        vec![
            SessionRequest::Start,
            SessionRequest::ResolveVolume("E:\\".to_string()),
            SessionRequest::Register(vec!["E:\\".to_string()]),
            SessionRequest::Shutdown { force: true },
            SessionRequest::End,
            SessionRequest::Finished(SessionResult::Released),
        ]
    );
    let requests = run_session(
        ResourceSession::begin("e", Purpose::Release { force: false }),
        vec![
            SessionReply::Status(0),
            SessionReply::Volume(None),
            SessionReply::Status(0),
            SessionReply::Status(351),
            SessionReply::Ack,
        ],
    );
    assert_eq!(
        &requests[3..],
        &[
            SessionRequest::Shutdown { force: false },
            SessionRequest::End,
            failed(SessionStage::Shutdown, 351),
        ]
    );
}

#[test]
fn a_record_is_shown_by_its_application_and_service() {
    assert_eq!(
        occupant_from_record(&record(1, "Explorer", "")),
        Occupant {
            pid: 1,
            name: "Explorer".to_string(),
            desc: "RestartManager：Explorer".to_string(),
        }
    );
    assert_eq!(
        occupant_from_record(&record(2, "Host", "WSearch")),
        Occupant {
            pid: 2,
            name: "Host".to_string(),
            desc: "RestartManager：Host (服务:WSearch)".to_string(),
        }
    );
    assert_eq!(
        occupant_from_record(&record(3, "", "")),
        Occupant { pid: 3, name: "Unknown".to_string(), desc: "RestartManager：".to_string() }
    );
    assert_eq!(occupants_from_records(&vec![]), vec![]);
    assert_eq!(occupants_from_records(&vec![record(3, "", ""), record(1, "a", "")]).len(), 2);
}

#[test]
fn the_paths_of_a_drive_are_its_root_and_its_volume() {
    assert_eq!(session_paths("I", None), vec!["I:\\".to_string()]);
    assert_eq!(
        session_paths("I", Some("\\\\?\\Volume{1}\\".to_string())),
        vec!["I:\\".to_string(), "\\\\?\\Volume{1}\\".to_string()]
    );
}

#[test]
fn a_refusal_is_described_by_call_and_status() {
    let cases = vec![
        (SessionStage::Start, "RmStartSession rc=5"),
        (SessionStage::Register, "RmRegisterResources rc=5"),
        (SessionStage::Size, "RmGetList rc=5"),
        (SessionStage::Fill, "RmGetList#2 rc=5"),
        (SessionStage::Shutdown, "RmShutdown rc=5"),
    ];
    for (stage, words) in cases {
        assert_eq!(SessionError { stage, status: 5 }.describe(), words);
    }
    assert_eq!(
        SessionError { stage: SessionStage::Start, status: STATUS_NONE }.describe(),
        "RmStartSession rc=4294967295"
    );
}

#[test]
fn a_session_tells_when_it_is_over() {
    let (session, _) = list_occupants("I");
    assert!(!session.is_finished());
    let (session, _) = session.step(SessionReply::Status(1));
    assert!(session.is_finished());
    let result = SessionResult::Occupants(vec![]);
    assert_eq!(result.duplicate(), result);
}
