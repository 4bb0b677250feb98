use geek_killer::coordinator::{Coordinator, Reply, Request};
use geek_killer::failure::Failure;
use geek_killer::occupant::Occupant;
use geek_killer::state::{Command, EjectState};

fn occupant(pid: u32, name: &str, desc: &str) -> Occupant {
    Occupant { pid, name: name.to_string(), desc: desc.to_string() }
}

/// Runs a command against a script of replies, one for each request but the
/// last, and gives every request back.
fn run(cmd: Command, replies: Vec<Reply>) -> Vec<Request> {
    let (mut co, first) = Coordinator::begin(cmd);
    let mut requests = vec![first];
    for reply in replies {
        let (next, request) = co.step(reply);
        co = next;
        requests.push(request);
    }
    requests
}

fn published(requests: &[Request]) -> Vec<EjectState> {
    let mut shown = Vec::new();
    for request in requests {
        if let Request::Publish(state) = request {
            shown.push(state.clone());
        }
    }
    shown
}

fn done(drive: &str, message: &str) -> EjectState {
    EjectState::Done { drive: drive.to_string(), message: message.to_string() }
}

#[test]
fn scan_of_a_free_drive_shows_scanning_then_success() {
    let requests = run(
        Command::Scan("I:".to_string()),
        vec![Reply::Ack, Reply::Succeeded, Reply::Ack, Reply::Ack],
    );
    assert_eq!(
        requests,
        vec![
            Request::Publish(EjectState::Scanning("I:".to_string())),
            Request::QuickEject("I".to_string()),
            Request::Publish(done("I:", "✅ 驱动器 I: 已安全弹出")),
            Request::RefreshVolumes,
            Request::Finished,
        ]
    );
    assert_eq!(
        published(&requests),
        vec![EjectState::Scanning("I:".to_string()), done("I:", "✅ 驱动器 I: 已安全弹出")]
    );
}

#[test]
fn scan_of_a_held_drive_shows_its_occupant() {
    let requests = run(
        Command::Scan("I:".to_string()),
        vec![
            Reply::Ack,
            Reply::Failed(Failure::Unknown("in use".to_string())),
            Reply::Occupants(vec![occupant(4321, "notepad.exe", "RestartManager：notepad.exe")]),
            Reply::Occupants(vec![]),
            Reply::Ack,
            Reply::Ack,
        ],
    );
    assert_eq!(
        published(&requests),
        vec![
            EjectState::Scanning("I:".to_string()),
            EjectState::Occupied {
                drive: "I:".to_string(),
                list: vec![occupant(4321, "notepad.exe", "RestartManager：notepad.exe")],
            },
        ]
    );
    assert_eq!(requests[2], Request::ListOccupants("I".to_string()));
    assert_eq!(requests[3], Request::SweepProcesses("I".to_string()));
    assert_eq!(requests[5], Request::RefreshVolumes);
    assert_eq!(requests[6], Request::Finished);
}

#[test]
fn scan_shows_a_process_once_when_both_paths_find_it() {
    let requests = run(
        Command::Scan("i".to_string()),
        vec![
            Reply::Ack,
            Reply::Failed(Failure::Unknown("in use".to_string())),
            Reply::Occupants(vec![occupant(4321, "a.exe", "RestartManager：a.exe")]),
            Reply::Occupants(vec![
                occupant(4321, "a.exe", "a.exe (正在运行)"),
                occupant(77, "b.exe", "b.exe (工作目录)"),
            ]),
        ],
    );
    assert_eq!(
        requests[4],
        Request::Publish(EjectState::Occupied {
            drive: "I:".to_string(),
            list: vec![
                occupant(4321, "a.exe", "RestartManager：a.exe"),
                occupant(77, "b.exe", "b.exe (工作目录)"),
            ],
        })
    );
}

#[test]
fn scan_without_occupants_shows_why_the_eject_failed() {
    let requests = run(
        Command::Scan("I:\\".to_string()),
        vec![
            Reply::Ack,
            Reply::Failed(Failure::Unknown("设备正忙".to_string())),
            Reply::Failed(Failure::FacilityUnavailable),
            Reply::Occupants(vec![]),
            Reply::Ack,
        ],
    );
    assert_eq!(
        published(&requests),
        vec![EjectState::Scanning("I:".to_string()), done("I:", "❌ 弹出失败：设备正忙")]
    );
}

#[test]
fn scan_without_occupants_rewrites_a_known_veto() {
    let requests = run(
        Command::Scan("I:".to_string()),
        vec![
            Reply::Ack,
            Reply::Failed(Failure::from_text("eject failed: CONFIGRET(23), VetoType: 6")),
            Reply::Occupants(vec![]),
            Reply::Occupants(vec![]),
        ],
    );
    assert_eq!(
        requests[4],
        Request::Publish(done("I:", "❌ 系统核心组件锁定，强制移除失败。请重启电脑。"))
    );
}

#[test]
fn kill_one_ejects_when_no_occupant_is_left() {
    let requests = run(
        Command::KillOne(4321, "I:".to_string()),
        vec![
            Reply::Ack,
            Reply::Ack,
            Reply::Ack,
            Reply::Occupants(vec![]),
            Reply::Ack,
            Reply::Succeeded,
            Reply::Ack,
            Reply::Ack,
        ],
    );
    assert_eq!(
        requests,
        vec![
            Request::Publish(EjectState::Scanning("I: 正在终止占用进程...".to_string())),
            Request::Terminate(vec![4321]),
            Request::Pause(200),
            Request::ListOccupants("I".to_string()),
            Request::Publish(EjectState::Ejecting("I:".to_string())),
            Request::SmartEject("I".to_string()),
            Request::Publish(done("I:", "✅ 驱动器 I: 已安全弹出")),
            Request::RefreshVolumes,
            Request::Finished,
        ]
    );
    assert_eq!(
        published(&requests),
        vec![
            EjectState::Scanning("I: 正在终止占用进程...".to_string()),
            EjectState::Ejecting("I:".to_string()),
            done("I:", "✅ 驱动器 I: 已安全弹出"),
        ]
    );
}

#[test]
fn kill_one_shows_the_occupants_that_are_left() {
    let requests = run(
        Command::KillOne(4321, "I:".to_string()),
        vec![
            Reply::Ack,
            Reply::Ack,
            Reply::Ack,
            Reply::Occupants(vec![occupant(9, "x.exe", "RestartManager：x.exe")]),
            Reply::Ack,
        ],
    );
    assert_eq!(
        published(&requests),
        vec![
            EjectState::Scanning("I: 正在终止占用进程...".to_string()),
            EjectState::Occupied {
                drive: "I:".to_string(),
                list: vec![occupant(9, "x.exe", "RestartManager：x.exe")],
            },
        ]
    );
    assert_eq!(requests[5], Request::Finished);
}

#[test]
fn kill_one_goes_back_to_occupied_when_the_eject_fails() {
    let requests = run(
        Command::KillOne(4321, "I:".to_string()),
        vec![
            Reply::Ack,
            Reply::Ack,
            Reply::Ack,
            Reply::Failed(Failure::FacilityUnavailable),
            Reply::Ack,
            Reply::Failed(Failure::AccessDenied),
            Reply::Ack,
            Reply::Ack,
        ],
    );
    assert_eq!(
        published(&requests),
        vec![
            EjectState::Scanning("I: 正在终止占用进程...".to_string()),
            EjectState::Ejecting("I:".to_string()),
            EjectState::Occupied { drive: "I:".to_string(), list: vec![] },
        ]
    );
    assert_eq!(requests[7], Request::RefreshVolumes);
    assert_eq!(requests[8], Request::Finished);
}

#[test]
fn force_eject_with_a_known_veto_asks_for_a_restart() {
    let veto = Failure::HardwareVeto { status: 23, veto: 6 };
    let requests = run(
        Command::ForceEject("I:".to_string(), vec![4321]),
        vec![
            Reply::Ack,
            Reply::Succeeded,
            Reply::Ack,
            Reply::Occupants(vec![]),
            Reply::Ack,
            Reply::Ack,
            Reply::Failed(veto.clone()),
            Reply::Failed(Failure::Unknown("Error: access denied".to_string())),
            Reply::Ack,
            Reply::Failed(veto),
            Reply::Ack,
            Reply::Ack,
        ],
    );
    assert_eq!(
        published(&requests),
        vec![
            EjectState::Scanning("I: 正在强制清场...".to_string()),
            done("I:", "❌ 系统核心组件锁定，强制移除失败。请重启电脑。"),
        ]
    );
    assert_eq!(
        requests,
        vec![
            Request::Publish(EjectState::Scanning("I: 正在强制清场...".to_string())),
            Request::ForceRelease("I".to_string()),
            Request::Terminate(vec![4321]),
            Request::SweepProcesses("I".to_string()),
            Request::Terminate(vec![]),
            Request::Pause(300),
            Request::SmartEject("I".to_string()),
            Request::Dismount("I".to_string()),
            Request::Pause(500),
            Request::SmartEject("I".to_string()),
            Request::Publish(done("I:", "❌ 系统核心组件锁定，强制移除失败。请重启电脑。")),
            Request::RefreshVolumes,
            Request::Finished,
        ]
    );
}

#[test]
fn force_eject_terminates_the_named_and_the_found() {
    let requests = run(
        Command::ForceEject("e:".to_string(), vec![]),
        vec![
            Reply::Ack,
            Reply::Failed(Failure::FacilityUnavailable),
            Reply::Ack,
            Reply::Occupants(vec![
                occupant(12, "a.exe", "a.exe (正在运行)"),
                occupant(34, "b.exe", "b.exe (工作目录)"),
            ]),
        ],
    );
    assert_eq!(requests[2], Request::Terminate(vec![]));
    assert_eq!(requests[3], Request::SweepProcesses("E".to_string()));
    assert_eq!(requests[4], Request::Terminate(vec![12, 34]));

    let requests = run(
        Command::ForceEject("e:".to_string(), vec![5, 6]),
        vec![Reply::Ack, Reply::Succeeded, Reply::Ack, Reply::Occupants(vec![])],
    );
    assert_eq!(requests[2], Request::Terminate(vec![5, 6]));
    assert_eq!(requests[4], Request::Terminate(vec![]));
}

#[test]
fn force_eject_that_succeeds_tells_the_shell() {
    let requests = run(
        Command::ForceEject("I".to_string(), vec![1]),
        vec![
            Reply::Ack,
            Reply::Ack,
            Reply::Ack,
            Reply::Ack,
            Reply::Ack,
            Reply::Ack,
            Reply::Succeeded,
            Reply::Ack,
            Reply::Ack,
            Reply::Ack,
        ],
    );
    assert_eq!(requests[7], Request::NotifyShell);
    assert_eq!(requests[8], Request::Publish(done("I:", "✅ 驱动器 I: 已强制弹出")));
    assert_eq!(requests[9], Request::RefreshVolumes);
    assert_eq!(requests[10], Request::Finished);
}

#[test]
fn force_eject_shows_an_unknown_failure_in_its_own_words() {
    let requests = run(
        Command::ForceEject("I".to_string(), vec![]),
        vec![
            Reply::Ack,
            Reply::Ack,
            Reply::Ack,
            Reply::Ack,
            Reply::Ack,
            Reply::Ack,
            Reply::Failed(Failure::AccessDenied),
            Reply::Succeeded,
            Reply::Ack,
            Reply::Failed(Failure::AccessDenied),
        ],
    );
    assert_eq!(
        requests[10],
        Request::Publish(done("I:", "❌ 无法打开驱动器 (权限不足或不存在)"))
    );
}

#[test]
fn manual_dismount_ejects_after_the_utility() {
    let requests = run(
        Command::ManualDismount("I:".to_string()),
        vec![Reply::Ack, Reply::Succeeded, Reply::Ack, Reply::Ack, Reply::Succeeded, Reply::Ack, Reply::Ack],
    );
    assert_eq!(
        requests,
        vec![
            Request::Publish(EjectState::Scanning("I: 正在执行 fsutil dismount...".to_string())),
            Request::Dismount("I".to_string()),
            Request::Publish(EjectState::Ejecting("I: 卷已强制卸载，尝试弹出...".to_string())),
            Request::Pause(500),
            Request::SmartEject("I".to_string()),
            Request::Publish(done("I:", "✅ 驱动器 I: 已安全弹出 (fsutil)")),
            Request::RefreshVolumes,
            Request::Finished,
        ]
    );
}

#[test]
fn manual_dismount_reports_the_occupants_when_the_eject_fails() {
    let requests = run(
        Command::ManualDismount("I:".to_string()),
        vec![
            Reply::Ack,
            Reply::Succeeded,
            Reply::Ack,
            Reply::Ack,
            Reply::Failed(Failure::NotFound),
            Reply::Ack,
            Reply::Occupants(vec![
                occupant(8, "x.exe", "RestartManager：x.exe"),
                occupant(8, "x.exe", "RestartManager：x.exe (服务:svc)"),
            ]),
            Reply::Ack,
            Reply::Ack,
        ],
    );
    assert_eq!(
        published(&requests),
        vec![
            EjectState::Scanning("I: 正在执行 fsutil dismount...".to_string()),
            EjectState::Ejecting("I: 卷已强制卸载，尝试弹出...".to_string()),
            done("I:", "❌ fsutil 成功但弹出失败：无法打开驱动器 (权限不足或不存在)"),
            EjectState::Occupied {
                drive: "I:".to_string(),
                list: vec![occupant(8, "x.exe", "RestartManager：x.exe")],
            },
        ]
    );
    assert_eq!(requests[6], Request::ListOccupants("I".to_string()));
    assert_eq!(requests[8], Request::RefreshVolumes);
    assert_eq!(requests[9], Request::Finished);
}

#[test]
fn manual_dismount_stops_when_the_utility_fails() {
    let requests = run(
        Command::ManualDismount("I:".to_string()),
        vec![
            Reply::Ack,
            Reply::Failed(Failure::Unknown("Error: Access is denied.".to_string())),
            Reply::Ack,
            Reply::Ack,
        ],
    );
    assert_eq!(
        requests,
        vec![
            Request::Publish(EjectState::Scanning("I: 正在执行 fsutil dismount...".to_string())),
            Request::Dismount("I".to_string()),
            Request::Publish(done("I:", "❌ fsutil 执行失败：Error: Access is denied.")),
            Request::RefreshVolumes,
            Request::Finished,
        ]
    );
}

#[test]
fn a_reply_that_does_not_answer_counts_as_failure() {
    let requests = run(
        Command::Scan("I".to_string()),
        vec![Reply::Ack, Reply::Ack, Reply::Ack, Reply::Ack],
    );
    assert_eq!(requests[2], Request::ListOccupants("I".to_string()));
    assert_eq!(requests[4], Request::Publish(done("I:", "❌ 弹出失败：")));
}

#[test]
fn a_finished_command_stays_finished() {
    let (co, _) = Coordinator::begin(Command::Scan("I".to_string()));
    assert!(!co.is_finished());
    assert_eq!(co.drive(), "I");
    let (co, _) = co.step(Reply::Ack);
    let (co, _) = co.step(Reply::Succeeded);
    let (co, request) = co.step(Reply::Ack);
    assert_eq!(request, Request::RefreshVolumes);
    assert!(!co.is_finished());
    let (co, request) = co.step(Reply::Ack);
    assert_eq!(request, Request::Finished);
    assert!(co.is_finished());
    let (co, request) = co.step(Reply::Succeeded);
    assert_eq!(request, Request::Finished);
    assert!(co.is_finished());
}

#[test]
fn every_command_ends_within_fourteen_requests() {
    let commands = vec![
        Command::Scan("I".to_string()),
        Command::KillOne(1, "I".to_string()),
        Command::ForceEject("I".to_string(), vec![1, 2]),
        Command::ManualDismount("I".to_string()),
    ];
    let replies = vec![
        Reply::Ack,
        Reply::Succeeded,
        Reply::Failed(Failure::NotFound),
        Reply::Occupants(vec![occupant(3, "n", "d")]),
    ];
    for cmd in commands {
        for reply in &replies {
            let (mut co, mut request) = Coordinator::begin(cmd.clone());
            let mut count = 1;
            let mut last_shown = None;
            while request != Request::Finished {
                if let Request::Publish(state) = &request {
                    last_shown = Some(state.clone());
                }
                let (next, asked) = co.step(reply.clone());
                co = next;
                request = asked;
                count += 1;
                assert!(count <= 14);
            }
            assert!(last_shown.unwrap().is_terminal());
        }
    }
}
