use geek_killer::occupant::{duplicate_all, holds_pid, merge_occupants, occupant_pids, Occupant};

fn occ(pid: u32, desc: &str) -> Occupant {
    Occupant { pid, name: format!("p{}.exe", pid), desc: desc.to_string() }
}

#[test]
fn the_entry_of_the_session_stands_where_both_paths_found_a_process() {
    let session = vec![occ(4321, "session"), occ(10, "session")];
    let sweep = vec![occ(10, "sweep"), occ(77, "sweep"), occ(4321, "sweep")];
    assert_eq!(
        merge_occupants(&session, &sweep),
        vec![occ(4321, "session"), occ(10, "session"), occ(77, "sweep")]
    );
}

#[test]
fn each_process_is_shown_once_whatever_the_lists_hold() {
    let session = vec![occ(1, "a"), occ(1, "b"), occ(2, "c")];
    let sweep = vec![occ(3, "d"), occ(3, "e"), occ(1, "f")];
    let merged = merge_occupants(&session, &sweep);
    assert_eq!(merged, vec![occ(1, "a"), occ(2, "c"), occ(3, "d")]);
    for i in 0..merged.len() {
        for j in (i + 1)..merged.len() {
            assert_ne!(merged[i].pid, merged[j].pid);
        }
    }
}

#[test]
fn merging_with_nothing_changes_nothing() {
    let list = vec![occ(1, "a"), occ(2, "b")];
    assert_eq!(merge_occupants(&list, &vec![]), list);
    assert_eq!(merge_occupants(&vec![], &list), list);
    assert_eq!(merge_occupants(&vec![], &vec![]), vec![]);
}

#[test]
fn a_process_id_is_looked_up_in_a_list() {
    let list = vec![occ(1, "a"), occ(2, "b")];
    assert!(holds_pid(&list, 1));
    assert!(holds_pid(&list, 2));
    assert!(!holds_pid(&list, 3));
    assert!(!holds_pid(&vec![], 1));
}

#[test]
fn the_process_ids_of_a_list_come_in_its_order() {
    assert_eq!(occupant_pids(&vec![occ(9, "a"), occ(2, "b"), occ(9, "c")]), vec![9, 2, 9]);
    assert_eq!(occupant_pids(&vec![]), Vec::<u32>::new());
}

#[test]
fn a_copy_of_a_list_is_the_same_list() {
    let list = vec![occ(1, "a"), occ(2, "b")];
    assert_eq!(duplicate_all(&list), list);
    assert_eq!(list[0].duplicate(), list[0]);
}
