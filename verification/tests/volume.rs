use geek_killer::volume::{
    counts_as_removable, gauge_step, is_system_volume, is_tight, offered_volumes, offers,
    sample_interval, sample_is_tight, Volume, TIGHT_MEMORY,
};

fn volume(mount_point: &str, removable: bool) -> Volume {
    Volume {
        mount_point: mount_point.to_string(),
        label: "disk".to_string(),
        free_bytes: 1,
        total_bytes: 2,
        removable,
    }
}

#[test]
fn removable_volumes_with_a_short_mount_point_are_offered() {
    assert!(offers(&volume("E:\\", true)));
    assert!(offers(&volume("E:", true)));
    assert!(offers(&volume("", true)));
    assert!(offers(&volume("盘:\\", true)));
    assert!(!offers(&volume("E:\\", false)));
    assert!(!offers(&volume("E:\\x", true)));
    assert!(!offers(&volume("/mnt/usb", true)));
    let snapshot = vec![
        volume("C:\\", false),
        volume("E:\\", true),
        volume("E:\\mount", true),
        volume("F:\\", true),
    ];
    assert_eq!(offered_volumes(&snapshot), vec![1, 3]);
    assert_eq!(offered_volumes(&vec![]), Vec::<usize>::new());
    assert_eq!(
        Volume::default(),
        Volume {
            mount_point: String::new(),
            label: String::new(),
            free_bytes: 0,
            total_bytes: 0,
            removable: false,
        }
    );
}

#[test]
fn the_volume_of_the_system_is_never_removable() {
    assert!(is_system_volume("C:\\", None));
    assert!(is_system_volume("c:/", None));
    assert!(is_system_volume("c", None));
    assert!(!is_system_volume("D:\\", None));
    assert!(!is_system_volume("", None));
    assert!(is_system_volume("d:\\", Some("D:")));
    assert!(is_system_volume("D:\\", Some("d:")));
    assert!(!is_system_volume("C:\\", Some("D:")));
    assert!(!is_system_volume("D", Some("D:")));
    assert!(is_system_volume("anything", Some("")));
    assert!(counts_as_removable("E:\\", None, true));
    assert!(!counts_as_removable("E:\\", None, false));
    assert!(!counts_as_removable("C:\\", None, true));
    assert!(!counts_as_removable("E:\\", Some("e:"), true));
}

#[test]
fn the_gauge_rises_and_falls_by_one_level() {
    assert_eq!(gauge_step(0, true), 1);
    assert_eq!(gauge_step(4, true), 5);
    assert_eq!(gauge_step(5, true), 5);
    assert_eq!(gauge_step(5, false), 4);
    assert_eq!(gauge_step(1, false), 0);
    assert_eq!(gauge_step(0, false), 0);
    assert!(!is_tight(2));
    assert!(is_tight(3));
    assert!(is_tight(5));
    let mut level = 0;
    for _ in 0..2 {
        level = gauge_step(level, true);
    }
    assert!(!is_tight(level));
    level = gauge_step(level, true);
    assert!(is_tight(level));
    level = gauge_step(level, false);
    assert!(!is_tight(level));
}

#[test]
fn a_sample_is_tight_when_processor_or_memory_is_short() {
    assert_eq!(TIGHT_MEMORY, 524_288_000);
    assert!(sample_is_tight(true, u64::MAX));
    assert!(sample_is_tight(false, TIGHT_MEMORY - 1));
    assert!(!sample_is_tight(false, TIGHT_MEMORY));
    assert_eq!(sample_interval(true), 2000);
    assert_eq!(sample_interval(false), 500);
}
