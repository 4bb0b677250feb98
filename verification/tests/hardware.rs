use geek_killer::failure::Failure;
use geek_killer::hardware::{
    find_and_eject_device, BusNode, DeviceIdentity, HardwareEjector, HardwareReply,
    HardwareRequest, Probe, Removal,
};

const TARGET: DeviceIdentity = DeviceIdentity { number: 2, kind: 7 };

fn run(replies: Vec<HardwareReply>) -> Vec<HardwareRequest> {
    let (mut hw, first) = HardwareEjector::begin(TARGET);
    let mut requests = vec![first];
    for reply in replies {
        let (next, request) = hw.step(reply);
        hw = next;
        requests.push(request);
    }
    requests
}

#[test]
fn the_parent_is_asked_first_and_its_consent_is_enough() {
    let requests = run(vec![
        HardwareReply::Opened(true),
        HardwareReply::Probed(Probe::Device(DeviceIdentity { number: 0, kind: 7 })),
        HardwareReply::Probed(Probe::Unreadable),
        HardwareReply::Probed(Probe::Device(TARGET)),
        HardwareReply::Answered { status: 0, veto: 0 },
        HardwareReply::Ack,
        HardwareReply::Ack,
    ]);
    assert_eq!(
        requests,
        vec![
            HardwareRequest::OpenList,
            HardwareRequest::Probe(0),
            HardwareRequest::Probe(1),
            HardwareRequest::Probe(2),
            HardwareRequest::Remove { index: 2, node: BusNode::Parent },
            HardwareRequest::CloseList,
            HardwareRequest::NotifyShell,
            HardwareRequest::Finished(Removal::Removed),
        ]
    );
}

#[test]
fn the_device_is_asked_when_the_parent_refuses() {
    let requests = run(vec![
        HardwareReply::Opened(true),
        HardwareReply::Probed(Probe::Device(TARGET)),
        HardwareReply::Answered { status: 23, veto: 6 },
        HardwareReply::Answered { status: 0, veto: 0 },
        HardwareReply::Ack,
        HardwareReply::Ack,
    ]);
    assert_eq!(
        requests,
        vec![
            HardwareRequest::OpenList,
            HardwareRequest::Probe(0),
            HardwareRequest::Remove { index: 0, node: BusNode::Parent },
            HardwareRequest::Remove { index: 0, node: BusNode::Device },
            HardwareRequest::CloseList,
            HardwareRequest::NotifyShell,
            HardwareRequest::Finished(Removal::Removed),
        ]
    );
}

#[test]
fn a_refusal_by_both_nodes_is_reported_with_the_codes_of_the_device() {
    let requests = run(vec![
        HardwareReply::Opened(true),
        HardwareReply::Probed(Probe::Device(TARGET)),
        HardwareReply::Answered { status: 23, veto: 5 },
        HardwareReply::Answered { status: 23, veto: 6 },
        HardwareReply::Probed(Probe::End),
        HardwareReply::Ack,
    ]);
    assert_eq!(
        requests,
        vec![
            HardwareRequest::OpenList,
            HardwareRequest::Probe(0),
            HardwareRequest::Remove { index: 0, node: BusNode::Parent },
            HardwareRequest::Remove { index: 0, node: BusNode::Device },
            HardwareRequest::Probe(1),
            HardwareRequest::CloseList,
            HardwareRequest::Finished(Removal::Refused { status: 23, veto: 6 }),
        ]
    );
}

#[test]
fn a_list_without_the_device_ends_in_no_match() {
    let requests = run(vec![
        HardwareReply::Opened(true),
        HardwareReply::Probed(Probe::Device(DeviceIdentity { number: 2, kind: 8 })),
        HardwareReply::Probed(Probe::Device(DeviceIdentity { number: 3, kind: 7 })),
        HardwareReply::Probed(Probe::End),
        HardwareReply::Ack,
        HardwareReply::Ack,
    ]);
    assert_eq!(
        requests,
        vec![
            HardwareRequest::OpenList,
            HardwareRequest::Probe(0),
            HardwareRequest::Probe(1),
            HardwareRequest::Probe(2),
            HardwareRequest::CloseList,
            HardwareRequest::Finished(Removal::NoMatch),
            HardwareRequest::Finished(Removal::NoMatch),
        ]
    );
}

#[test]
fn a_list_that_cannot_be_opened_is_not_closed() {
    let requests = run(vec![HardwareReply::Opened(false), HardwareReply::Ack]);
    assert_eq!(
        requests,
        vec![
            HardwareRequest::OpenList,
            HardwareRequest::Finished(Removal::Unavailable),
            HardwareRequest::Finished(Removal::Unavailable),
        ]
    );
    assert_eq!(run(vec![HardwareReply::Ack])[1], HardwareRequest::Finished(Removal::Unavailable));
}

#[test]
fn the_enumeration_stops_where_the_index_cannot_grow() {
    let hw = HardwareEjector {
        target: TARGET,
        phase: geek_killer::hardware::HardwarePhase::Probing,
        index: u32::MAX,
        result: Removal::NoMatch,
    };
    let (hw, request) = hw.step(HardwareReply::Probed(Probe::Unreadable));
    assert_eq!(request, HardwareRequest::CloseList);
    assert_eq!(hw.index, u32::MAX);
}

#[test]
fn the_end_of_an_attempt_is_classified() {
    assert_eq!(Removal::Removed.failure(), None);
    assert_eq!(Removal::Unavailable.failure(), Some(Failure::FacilityUnavailable));
    assert_eq!(Removal::NoMatch.failure(), Some(Failure::NotFound));
    assert_eq!(
        Removal::Refused { status: 23, veto: 6 }.failure(),
        Some(Failure::HardwareVeto { status: 23, veto: 6 })
    );
}

#[test]
fn an_attempt_begins_by_opening_the_list() {
    let (hw, request) = find_and_eject_device(2, 7);
    assert_eq!(request, HardwareRequest::OpenList);
    assert_eq!(hw.target, TARGET);
    assert_eq!((hw, request), HardwareEjector::begin(TARGET));
}
