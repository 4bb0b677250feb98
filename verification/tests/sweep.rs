use geek_killer::occupant::Occupant;
use geek_killer::sweep::{
    process_table, scan_processes, starts_with_folded, sweep, Hold, ProcessRow, Suspect,
};
use geek_killer::text::chars_of;

fn row(pid: u32, name: &str, exe: Option<&str>, cwd: Option<&str>) -> ProcessRow {
    ProcessRow {
        pid,
        name: name.to_string(),
        exe: exe.map(|s| s.to_string()),
        cwd: cwd.map(|s| s.to_string()),
    }
}

#[test]
fn a_process_is_found_by_its_program_or_its_working_directory() {
    let rows = vec![
        row(1, "a.exe", Some("I:\\tools\\a.exe"), Some("C:\\")),
        row(2, "b.exe", Some("C:\\b.exe"), Some("i:\\work")),
        row(3, "c.exe", Some("C:\\c.exe"), Some("C:\\")),
        row(4, "d.exe", None, Some("I:")),
        row(5, "e.exe", None, None),
        row(6, "f.exe", Some("i:/f.exe"), Some("I:\\")),
        row(7, "g.exe", Some("I"), Some("II:\\")),
    ];
    let found = sweep(&rows, "i:\\");
    assert_eq!(
        found,
        vec![
            Suspect {
                pid: 1,
                name: "a.exe".to_string(),
                exe: Some("I:\\tools\\a.exe".to_string()),
                hold: Hold::Running,
            },
            Suspect {
                pid: 2,
                name: "b.exe".to_string(),
                exe: Some("C:\\b.exe".to_string()),
                hold: Hold::WorkingDirectory,
            },
            Suspect { pid: 4, name: "d.exe".to_string(), exe: None, hold: Hold::WorkingDirectory },
            Suspect {
                pid: 6,
                name: "f.exe".to_string(),
                exe: Some("i:/f.exe".to_string()),
                hold: Hold::Running,
            },
        ]
    );
    assert_eq!(sweep(&rows, "Z"), vec![]);
    assert_eq!(sweep(&vec![], "I"), vec![]);
}

#[test]
fn a_suspect_is_described_by_its_program_file_or_its_name() {
    let running = Suspect {
        pid: 1,
        name: "a.exe".to_string(),
        exe: Some("I:\\a.exe".to_string()),
        hold: Hold::Running,
    };
    assert_eq!(
        running.describe(Some("记事本".to_string())),
        Occupant { pid: 1, name: "a.exe".to_string(), desc: "记事本 (正在运行)".to_string() }
    );
    assert_eq!(
        running.describe(None),
        Occupant { pid: 1, name: "a.exe".to_string(), desc: "a.exe (正在运行)".to_string() }
    );
    let working =
        Suspect { pid: 2, name: "b.exe".to_string(), exe: None, hold: Hold::WorkingDirectory };
    assert_eq!(
        working.describe(Some("ignored".to_string())),
        Occupant { pid: 2, name: "b.exe".to_string(), desc: "b.exe (工作目录)".to_string() }
    );
}

#[test]
fn a_prefix_is_matched_in_either_case() {
    assert!(starts_with_folded(&chars_of("i:\\x"), &chars_of("I:")));
    assert!(starts_with_folded(&chars_of("I:"), &chars_of("I:")));
    assert!(starts_with_folded(&chars_of("abc"), &chars_of("")));
    assert!(!starts_with_folded(&chars_of("I"), &chars_of("I:")));
    assert!(!starts_with_folded(&chars_of("I:\\x"), &chars_of("i:")));
    assert!(!starts_with_folded(&chars_of("J:\\x"), &chars_of("I:")));
}

#[test]
fn the_process_table_of_this_machine_can_be_read() {
    let rows = process_table();
    assert!(!rows.is_empty());
    for i in 0..rows.len() {
        for j in (i + 1)..rows.len() {
            assert_ne!(rows[i].pid, rows[j].pid);
        }
    }
    assert!(rows.iter().any(|r| r.exe.is_some()));
}

#[test]
fn a_scan_of_this_machine_finds_only_processes_on_the_drive() {
    let found = scan_processes("q:");
    for suspect in &found {
        let on_drive = |p: &Option<String>| {
            p.as_ref().map(|s| s.to_ascii_uppercase().starts_with("Q:")).unwrap_or(false)
        };
        match suspect.hold {
            Hold::Running => assert!(on_drive(&suspect.exe)),
            Hold::WorkingDirectory => assert!(!on_drive(&suspect.exe)),
        }
    }
}
