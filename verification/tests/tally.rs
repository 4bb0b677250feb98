use geek_killer::classify::ProcessInfo;
use geek_killer::tally::{
    add_memory, find_group, join_group, order_by_memory, shelf, Group, Member, Shelf,
};
use geek_killer::volume::TIGHT_MEMORY;

fn info(name: &str, category: &str) -> ProcessInfo {
    ProcessInfo { chinese_name: name.to_string(), category: category.to_string() }
}

fn member(pid: u32, memory: u64) -> Member {
    Member { pid, memory, not_responding: false }
}

fn group(name: &str, memory: u64) -> Group {
    Group {
        name: name.to_string(),
        friendly_name: String::new(),
        category: "应用".to_string(),
        total_memory: memory,
        pids: vec![],
        is_system: false,
        is_not_responding: false,
    }
}

#[test]
fn the_processes_of_a_name_form_one_group() {
    let mut groups = Vec::new();
    assert_eq!(join_group(&mut groups, "chrome.exe", info("Chrome", "浏览器"), member(4000, 10)), 0);
    assert_eq!(join_group(&mut groups, "code.exe", info("VS Code", "开发"), member(5000, 7)), 1);
    assert_eq!(
        join_group(
            &mut groups,
            "chrome.exe",
            info("set aside", "系统"),
            Member { pid: 4001, memory: 5, not_responding: true },
        ),
        0
    );
    assert_eq!(
        groups,
        vec![
            Group {
                name: "chrome.exe".to_string(),
                friendly_name: "Chrome".to_string(),
                category: "浏览器".to_string(),
                total_memory: 15,
                pids: vec![4000, 4001],
                is_system: false,
                is_not_responding: true,
            },
            Group {
                name: "code.exe".to_string(),
                friendly_name: "VS Code".to_string(),
                category: "开发".to_string(),
                total_memory: 7,
                pids: vec![5000],
                is_system: false,
                is_not_responding: false,
            },
        ]
    );
    assert_eq!(find_group(&groups, "code.exe"), Some(1));
    assert_eq!(find_group(&groups, "Code.exe"), None);
    assert_eq!(find_group(&vec![], "code.exe"), None);
}

#[test]
fn a_group_counts_as_system_once_one_of_its_processes_does() {
    let mut groups = Vec::new();
    join_group(&mut groups, "svc.exe", info("", "应用"), member(2000, 1));
    assert!(!groups[0].is_system);
    join_group(&mut groups, "svc.exe", info("", "应用"), member(4, 1));
    assert!(groups[0].is_system);
    join_group(&mut groups, "svc.exe", info("", "应用"), member(3000, 1));
    assert!(groups[0].is_system);
    join_group(&mut groups, "svchost.exe", info("系统服务宿主", "系统"), member(9000, 1));
    assert!(groups[1].is_system);
}

#[test]
fn memory_is_summed_up_to_the_largest_number() {
    assert_eq!(add_memory(1, 2), 3);
    assert_eq!(add_memory(u64::MAX, 0), u64::MAX);
    assert_eq!(add_memory(u64::MAX - 1, 1), u64::MAX);
    assert_eq!(add_memory(u64::MAX - 1, 2), u64::MAX);
    assert_eq!(add_memory(u64::MAX, u64::MAX), u64::MAX);
    let mut groups = Vec::new();
    join_group(&mut groups, "a", info("", ""), member(1, u64::MAX));
    join_group(&mut groups, "a", info("", ""), member(2, 5));
    assert_eq!(groups[0].total_memory, u64::MAX);
}

#[test]
fn the_heaviest_group_is_shown_first() {
    let groups = vec![group("a", 5), group("b", 9), group("c", 5), group("d", 0), group("e", 9)];
    assert_eq!(order_by_memory(&groups), vec![1, 4, 0, 2, 3]);
    assert_eq!(order_by_memory(&vec![]), Vec::<usize>::new());
    assert_eq!(order_by_memory(&vec![group("a", 1)]), vec![0]);
    let rising: Vec<Group> = (0..20).map(|n| group("g", n)).collect();
    let order = order_by_memory(&rising);
    assert_eq!(order, (0..20).rev().collect::<Vec<usize>>());
}

#[test]
fn a_group_stands_on_one_of_three_shelves() {
    let mut g = group("a", TIGHT_MEMORY);
    assert_eq!(shelf(&g, false), Shelf::Other);
    assert_eq!(shelf(&g, true), Shelf::Heavy);
    g.is_system = true;
    assert_eq!(shelf(&g, false), Shelf::System);
    assert_eq!(shelf(&g, true), Shelf::Heavy);
    g.total_memory = TIGHT_MEMORY + 1;
    assert_eq!(shelf(&g, false), Shelf::Heavy);
}
