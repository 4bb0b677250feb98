use geek_killer::failure::Failure;
use geek_killer::hardware::DeviceIdentity;
use geek_killer::smart::{quick_eject, smart_eject, Depth, SmartEject, SmartReply, SmartRequest};

const DISK: DeviceIdentity = DeviceIdentity { number: 1, kind: 7 };

fn run_from(
    start: (SmartEject, SmartRequest),
    replies: Vec<SmartReply>,
) -> Vec<SmartRequest> {
    let (mut protocol, first) = start;
    let mut requests = vec![first];
    for reply in replies {
        let (next, request) = protocol.step(reply);
        protocol = next;
        requests.push(request);
    }
    requests
}

fn run_smart(drive: &str, replies: Vec<SmartReply>) -> Vec<SmartRequest> {
    run_from(SmartEject::begin(drive, Depth::Full), replies)
}

#[test]
fn the_steps_come_in_their_order() {
    let requests = run_smart(
        "I:",
        vec![
            SmartReply::Opened,
            SmartReply::Identity(Some(DISK)),
            SmartReply::Worked(true),
            SmartReply::Worked(true),
            SmartReply::Worked(true),
            SmartReply::Ack,
            SmartReply::Ack,
            SmartReply::Removed,
            SmartReply::Ack,
        ],
    );
    assert_eq!(
        requests,
        vec![
            SmartRequest::OpenVolume("\\\\.\\I:".to_string()),
            SmartRequest::QueryIdentity,
            SmartRequest::Flush,
            SmartRequest::Lock,
            SmartRequest::Dismount,
            SmartRequest::Close,
            SmartRequest::Pause(500),
            SmartRequest::HardwareEject(DISK),
            SmartRequest::Finished(None),
            SmartRequest::Finished(None),
        ]
    );
}

#[test]
fn a_volume_that_cannot_be_opened_ends_the_protocol() {
    assert_eq!(
        run_smart("I", vec![SmartReply::OpenFailed(5)])[1],
        SmartRequest::Finished(Some(Failure::AccessDenied))
    );
    assert_eq!(
        run_smart("I", vec![SmartReply::OpenFailed(2)])[1],
        SmartRequest::Finished(Some(Failure::NotFound))
    );
    assert_eq!(
        run_smart("I", vec![SmartReply::Ack, SmartReply::Ack]),
        vec![
            SmartRequest::OpenVolume("\\\\.\\I:".to_string()),
            SmartRequest::Finished(Some(Failure::NotFound)),
            SmartRequest::Finished(Some(Failure::NotFound)),
        ]
    );
}

#[test]
fn the_lock_is_asked_five_times_and_the_dismount_follows_anyway() {
    let mut replies = vec![SmartReply::Opened, SmartReply::Identity(None), SmartReply::Worked(false)];
    for _ in 0..5 {
        replies.push(SmartReply::Worked(false));
        replies.push(SmartReply::Ack);
    }
    replies.push(SmartReply::Worked(false));
    replies.push(SmartReply::Ack);
    replies.push(SmartReply::Ack);
    replies.push(SmartReply::Failed(Failure::from_text("VetoType: 6")));
    let requests = run_smart("e:\\", replies);
    let mut expected = vec![
        SmartRequest::OpenVolume("\\\\.\\e:".to_string()),
        SmartRequest::QueryIdentity,
        SmartRequest::Flush,
    ];
    for _ in 0..5 {
        expected.push(SmartRequest::Lock);
        expected.push(SmartRequest::Pause(100));
    }
    expected.push(SmartRequest::Dismount);
    expected.push(SmartRequest::Close);
    expected.push(SmartRequest::Pause(500));
    expected.push(SmartRequest::EjectByLetter("e".to_string()));
    expected.push(SmartRequest::Finished(Some(Failure::HardwareVeto { status: 0, veto: 6 })));
    assert_eq!(requests, expected);
}

#[test]
fn a_lock_that_is_granted_late_stops_the_retries() {
    let requests = run_smart(
        "I",
        vec![
            SmartReply::Opened,
            SmartReply::Identity(Some(DISK)),
            SmartReply::Worked(true),
            SmartReply::Worked(false),
            SmartReply::Ack,
            SmartReply::Worked(true),
        ],
    );
    assert_eq!(
        &requests[3..],
        &[SmartRequest::Lock, SmartRequest::Pause(100), SmartRequest::Lock, SmartRequest::Dismount]
    );
}

#[test]
fn a_refused_removal_is_tried_again_three_times() {
    let refusal = Failure::HardwareVeto { status: 23, veto: 6 };
    let mut replies = vec![
        SmartReply::Opened,
        SmartReply::Identity(Some(DISK)),
        SmartReply::Ack,
        SmartReply::Worked(true),
        SmartReply::Ack,
        SmartReply::Ack,
        SmartReply::Ack,
    ];
    for _ in 0..3 {
        replies.push(SmartReply::Failed(Failure::NotFound));
        replies.push(SmartReply::Ack);
    }
    replies.push(SmartReply::Failed(refusal.clone()));
    let requests = run_smart("I", replies);
    let mut expected = Vec::new();
    for _ in 0..3 {
        expected.push(SmartRequest::HardwareEject(DISK));
        expected.push(SmartRequest::Pause(500));
    }
    expected.push(SmartRequest::HardwareEject(DISK));
    expected.push(SmartRequest::Finished(Some(refusal)));
    assert_eq!(&requests[7..], &expected[..]);
}

#[test]
fn a_retry_that_succeeds_ends_the_protocol_well() {
    let requests = run_smart(
        "I",
        vec![
            SmartReply::Opened,
            SmartReply::Identity(Some(DISK)),
            SmartReply::Ack,
            SmartReply::Worked(true),
            SmartReply::Ack,
            SmartReply::Ack,
            SmartReply::Ack,
            SmartReply::Failed(Failure::NotFound),
            SmartReply::Ack,
            SmartReply::Removed,
        ],
    );
    assert_eq!(
        &requests[7..],
        &[
            SmartRequest::HardwareEject(DISK),
            SmartRequest::Pause(500),
            SmartRequest::HardwareEject(DISK),
            SmartRequest::Finished(None),
        ]
    );
}

#[test]
fn the_free_function_begins_the_same_protocol() {
    let (a, first_a) = smart_eject("i:/");
    let (b, first_b) = SmartEject::begin("i:/", Depth::Full);
    assert_eq!(a, b);
    assert_eq!(first_a, first_b);
    assert_eq!(first_a, SmartRequest::OpenVolume("\\\\.\\i:".to_string()));
    assert!(!a.is_finished());
    let (a, _) = a.step(SmartReply::OpenFailed(5));
    assert!(a.is_finished());
}

#[test]
fn a_quick_eject_asks_for_the_removal_alone() {
    let requests = run_from(
        quick_eject("I:"),
        vec![
            SmartReply::Opened,
            SmartReply::Identity(Some(DISK)),
            SmartReply::Ack,
            SmartReply::Removed,
        ],
    );
    assert_eq!(
        requests,
        vec![
            SmartRequest::OpenVolume("\\\\.\\I:".to_string()),
            SmartRequest::QueryIdentity,
            SmartRequest::Close,
            SmartRequest::HardwareEject(DISK),
            SmartRequest::Finished(None),
        ]
    );
}

#[test]
fn a_quick_eject_is_not_tried_again() {
    let refusal = Failure::HardwareVeto { status: 23, veto: 6 };
    let requests = run_from(
        quick_eject("I"),
        vec![
            SmartReply::Opened,
            SmartReply::Identity(Some(DISK)),
            SmartReply::Ack,
            SmartReply::Failed(refusal.clone()),
        ],
    );
    assert_eq!(requests[4], SmartRequest::Finished(Some(refusal)));
    let requests = run_from(
        quick_eject("I"),
        vec![
            SmartReply::Opened,
            SmartReply::Identity(None),
            SmartReply::Ack,
            SmartReply::Failed(Failure::Unknown("no media".to_string())),
        ],
    );
    assert_eq!(
        &requests[3..],
        &[
            SmartRequest::EjectByLetter("I".to_string()),
            SmartRequest::Finished(Some(Failure::Unknown("no media".to_string()))),
        ]
    );
    assert_eq!(
        run_from(quick_eject("I"), vec![SmartReply::OpenFailed(5)])[1],
        SmartRequest::Finished(Some(Failure::AccessDenied))
    );
}
