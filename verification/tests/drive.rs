use geek_killer::drive::{close_with_backslash, device_path, drive_label, drive_root, norm_drive, trim_drive};

#[test]
fn every_form_of_a_drive_has_one_canonical_form() {
    assert_eq!(norm_drive("e"), "E");
    assert_eq!(norm_drive("E:"), "E");
    assert_eq!(norm_drive("e:\\"), "E");
    assert_eq!(norm_drive("E/"), "E");
}

#[test]
fn canonical_form_of_nothing_is_nothing() {
    assert_eq!(norm_drive(""), "");
    assert_eq!(norm_drive(":\\/"), "");
}

#[test]
fn only_trailing_separators_are_cut() {
    assert_eq!(norm_drive("a:b:"), "A:B");
    assert_eq!(trim_drive("i:\\//"), "i");
}

#[test]
fn paths_are_built_around_the_letter() {
    assert_eq!(drive_label("I"), "I:");
    assert_eq!(drive_root("I"), "I:\\");
    assert_eq!(device_path("I"), "\\\\.\\I:");
}

#[test]
fn a_volume_path_is_closed_once() {
    assert_eq!(close_with_backslash("\\\\?\\Volume{1}"), "\\\\?\\Volume{1}\\");
    assert_eq!(close_with_backslash("\\\\?\\Volume{1}\\"), "\\\\?\\Volume{1}\\");
    assert_eq!(close_with_backslash(""), "\\");
}
