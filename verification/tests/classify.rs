use geek_killer::classify::{
    build_known_processes, by_known_name, by_path, by_well_known_name, classify, display_name,
    is_system_process, look_up, wants_description, ProcessInfo,
};

fn info(name: &str, category: &str) -> ProcessInfo {
    ProcessInfo { chinese_name: name.to_string(), category: category.to_string() }
}

#[test]
fn a_well_known_name_goes_before_everything_else() {
    assert_eq!(by_well_known_name("firefox.exe"), Some(info("火狐浏览器", "浏览器")));
    assert_eq!(by_well_known_name("doubao-helper"), Some(info("豆包 (AI助手)", "AI助手")));
    assert_eq!(by_well_known_name("dingtalk.exe"), Some(info("钉钉", "办公")));
    assert_eq!(by_well_known_name("feishu.exe"), Some(info("飞书", "办公")));
    assert_eq!(by_well_known_name("wechatappex.exe"), Some(info("微信", "通讯")));
    assert_eq!(by_well_known_name("qqmusic.exe"), Some(info("QQ", "通讯")));
    assert_eq!(by_well_known_name("notepad.exe"), None);
    assert_eq!(by_well_known_name(""), None);
    assert!(!wants_description("firefox.exe"));
    assert!(wants_description("notepad.exe"));
    assert_eq!(
        classify("firefox.exe", Some("Firefox"), "c:\\program files\\firefox.exe"),
        info("火狐浏览器", "浏览器")
    );
}

#[test]
fn the_description_of_the_program_file_comes_next() {
    assert_eq!(
        classify("chrome.exe", Some("Google Chrome"), "c:\\program files\\chrome.exe"),
        info("Google Chrome", "应用")
    );
}

#[test]
fn the_list_of_known_programs_comes_after_the_description() {
    assert_eq!(classify("chrome.exe", None, ""), info("Chrome 浏览器", "浏览器"));
    assert_eq!(by_known_name("svchost.exe"), Some(info("系统服务宿主", "系统")));
    assert_eq!(by_known_name("explorer.exe"), Some(info("资源管理器", "系统")));
    assert_eq!(by_known_name("dwm.exe"), Some(info("桌面窗口管理器", "系统")));
    assert_eq!(by_known_name("searchindexer.exe"), Some(info("Windows 搜索索引", "系统")));
    assert_eq!(by_known_name("msedge.exe"), Some(info("Edge 浏览器", "浏览器")));
    assert_eq!(by_known_name("code.exe"), Some(info("VS Code", "开发")));
    assert_eq!(by_known_name("steam.exe"), Some(info("Steam", "游戏")));
    assert_eq!(by_known_name("Steam.exe"), None);
    assert_eq!(by_known_name("steam"), None);
    let list = build_known_processes();
    assert_eq!(list.len(), 12);
    for (name, known) in &list {
        assert_eq!(look_up(&list, name), Some(known.clone()));
    }
    assert_eq!(look_up(&list, "unknown.exe"), None);
    assert_eq!(look_up(&vec![], "code.exe"), None);
}

#[test]
fn the_place_of_the_program_is_the_last_resort() {
    assert_eq!(
        classify("lsass.exe", None, "c:\\windows\\system32\\lsass.exe"),
        info("Windows 系统组件", "系统")
    );
    assert_eq!(by_path("c:\\windows\\syswow64\\x.exe"), info("Windows 系统组件", "系统"));
    assert_eq!(by_path("c:\\program files\\nvidia corporation\\x.exe"), info("NVIDIA 驱动", "驱动"));
    assert_eq!(by_path("c:\\program files (x86)\\steam\\x.exe"), info("Steam", "游戏"));
    assert_eq!(by_path("c:\\program files\\other\\x.exe"), info("", "第三方应用"));
    assert_eq!(by_path("d:\\games\\steam\\x.exe"), info("", "应用"));
    assert_eq!(by_path(""), info("", "应用"));
}

#[test]
fn a_group_is_shown_by_its_friendly_name() {
    assert_eq!(display_name("微信", "wechat.exe"), "微信 (wechat.exe)");
    assert_eq!(display_name("", "tool.exe"), "tool.exe");
    assert_eq!(ProcessInfo::new("a", "b"), info("a", "b"));
}

#[test]
fn low_process_ids_and_the_system_category_count_as_system() {
    assert!(is_system_process(4, "应用"));
    assert!(is_system_process(999, ""));
    assert!(!is_system_process(1000, "应用"));
    assert!(is_system_process(1000, "系统"));
    assert!(is_system_process(u32::MAX, "系统"));
    assert!(!is_system_process(5000, "系统组件"));
}
