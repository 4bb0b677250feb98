//! Friendly names and categories for processes: by a few names that go
//! before everything else, by what the program file says of itself, by a
//! list of known programs, and at last by where the program lies.

use vstd::prelude::*;
use vstd::string::StringExecFns;
use crate::text::{contains, occurs, same_text};

verus! {

/// The friendly name and the category of a process.
#[derive(Clone, Debug, PartialEq, Eq)]
pub struct ProcessInfo {
    pub chinese_name: String,
    pub category: String,
}

/// The mathematical model of a [`ProcessInfo`].
pub struct ProcessInfoView {
    pub chinese_name: Seq<char>,
    pub category: Seq<char>,
}

impl View for ProcessInfo {
    type V = ProcessInfoView;

    open spec fn view(&self) -> ProcessInfoView {
        ProcessInfoView { chinese_name: self.chinese_name@, category: self.category@ }
    }
}

impl DeepView for ProcessInfo {
    type V = ProcessInfoView;

    open spec fn deep_view(&self) -> ProcessInfoView {
        self@
    }
}

/// The model of a friendly name and a category.
pub open spec fn info(name: Seq<char>, category: Seq<char>) -> ProcessInfoView {
    ProcessInfoView { chinese_name: name, category }
}

/// The model of information that may be there.
pub open spec fn info_of(i: Option<ProcessInfo>) -> Option<ProcessInfoView> {
    match i {
        Some(known) => Some(known@),
        None => None,
    }
}

/// The category of the parts of the system.
pub open spec fn system_category() -> Seq<char> {
    "系统"@
}

/// The names that go before everything else, because the program files of
/// these applications describe themselves badly. `name` is the name of the
/// process in lower case.
pub open spec fn well_known(name: Seq<char>) -> Option<ProcessInfoView> {
    if occurs(name, "firefox"@) {
        Some(info("火狐浏览器"@, "浏览器"@))
    } else if occurs(name, "doubao"@) {
        Some(info("豆包 (AI助手)"@, "AI助手"@))
    } else if occurs(name, "dingtalk"@) {
        Some(info("钉钉"@, "办公"@))
    } else if occurs(name, "feishu"@) {
        Some(info("飞书"@, "办公"@))
    } else if occurs(name, "wechat"@) {
        Some(info("微信"@, "通讯"@))
    } else if occurs(name, "qq"@) {
        Some(info("QQ"@, "通讯"@))
    } else {
        None
    }
}

/// The list of known programs, by the name of the process in lower case.
pub open spec fn listed(name: Seq<char>) -> Option<ProcessInfoView> {
    if name == "svchost.exe"@ {
        Some(info("系统服务宿主"@, "系统"@))
    } else if name == "explorer.exe"@ {
        Some(info("资源管理器"@, "系统"@))
    } else if name == "dwm.exe"@ {
        Some(info("桌面窗口管理器"@, "系统"@))
    } else if name == "searchindexer.exe"@ {
        Some(info("Windows 搜索索引"@, "系统"@))
    } else if name == "msedge.exe"@ {
        Some(info("Edge 浏览器"@, "浏览器"@))
    } else if name == "chrome.exe"@ {
        Some(info("Chrome 浏览器"@, "浏览器"@))
    } else if name == "wechat.exe"@ {
        Some(info("微信"@, "通讯"@))
    } else if name == "qq.exe"@ {
        Some(info("QQ"@, "通讯"@))
    } else if name == "dingtalk.exe"@ {
        Some(info("钉钉"@, "办公"@))
    } else if name == "feishu.exe"@ {
        Some(info("飞书"@, "办公"@))
    } else if name == "code.exe"@ {
        Some(info("VS Code"@, "开发"@))
    } else if name == "steam.exe"@ {
        Some(info("Steam"@, "游戏"@))
    } else {
        None
    }
}

/// The last resort: a category by where the program lies. `path` is the
/// path of the program in lower case, empty where it is not known.
pub open spec fn placed(path: Seq<char>) -> ProcessInfoView {
    if occurs(path, "windows\\system32"@) || occurs(path, "windows\\syswow64"@) {
        info("Windows 系统组件"@, "系统"@)
    } else if occurs(path, "program files"@) {
        if occurs(path, "nvidia"@) {
            info("NVIDIA 驱动"@, "驱动"@)
        } else if occurs(path, "steam"@) {
            info("Steam"@, "游戏"@)
        } else {
            info(""@, "第三方应用"@)
        }
    } else {
        info(""@, "应用"@)
    }
}

/// The friendly name and the category of a process: by its well-known
/// name; else by what its program file says of itself, where that is
/// known; else by the list of known programs; else by where it lies.
pub open spec fn classified(
    name: Seq<char>,
    description: Option<Seq<char>>,
    path: Seq<char>,
) -> ProcessInfoView {
    if well_known(name) is Some {
        well_known(name)->0
    } else if description is Some {
        info(description->0, "应用"@)
    } else if listed(name) is Some {
        listed(name)->0
    } else {
        placed(path)
    }
}

/// The name under which a group of processes is shown: the friendly name
/// with the name of the process in brackets, or the name of the process
/// alone where there is no friendly name.
pub open spec fn shown_as(friendly: Seq<char>, name: Seq<char>) -> Seq<char> {
    if friendly.len() == 0 {
        name
    } else {
        friendly + " ("@ + name + ")"@
    }
}

/// A process counts as part of the system where its id is below a
/// thousand or its category is that of the system.
pub open spec fn counts_as_system(pid: u32, category: Seq<char>) -> bool {
    pid < 1000 || category == system_category()
}

impl ProcessInfo {
    /// A friendly name and a category.
    pub fn new(name: &str, cat: &str) -> (i: ProcessInfo)
        ensures
            i@ == info(name@, cat@),
    {
        ProcessInfo { chinese_name: String::from_str(name), category: String::from_str(cat) }
    }
}

/// The information that goes with a well-known name, if the name of the
/// process holds one.
pub fn by_well_known_name(name_lower: &str) -> (i: Option<ProcessInfo>)
    ensures
        info_of(i) == well_known(name_lower@),
{
    if contains(name_lower, "firefox") {
        Some(ProcessInfo::new("火狐浏览器", "浏览器"))
    } else if contains(name_lower, "doubao") {
        Some(ProcessInfo::new("豆包 (AI助手)", "AI助手"))
    } else if contains(name_lower, "dingtalk") {
        Some(ProcessInfo::new("钉钉", "办公"))
    } else if contains(name_lower, "feishu") {
        Some(ProcessInfo::new("飞书", "办公"))
    } else if contains(name_lower, "wechat") {
        Some(ProcessInfo::new("微信", "通讯"))
    } else if contains(name_lower, "qq") {
        Some(ProcessInfo::new("QQ", "通讯"))
    } else {
        None
    }
}

/// The list of known programs: the name of each process in lower case,
/// with what is known of it. No name stands in the list twice.
pub fn build_known_processes() -> (list: Vec<(String, ProcessInfo)>)
    ensures
        list.len() == 12,
        forall|k: int| 0 <= k < list.len() ==> listed(list[k].0@) == Some(list[k].1@),
        forall|j: int, k: int| 0 <= j < k < list.len() ==> list[j].0@ != list[k].0@,
        forall|name: Seq<char>|
            listed(name) is Some ==> exists|k: int|
                0 <= k < list.len() && #[trigger] list[k].0@ == name,
{
    let mut list: Vec<(String, ProcessInfo)> = Vec::new();
    list.push((String::from_str("svchost.exe"), ProcessInfo::new("系统服务宿主", "系统")));
    list.push((String::from_str("explorer.exe"), ProcessInfo::new("资源管理器", "系统")));
    list.push((String::from_str("dwm.exe"), ProcessInfo::new("桌面窗口管理器", "系统")));
    list.push(
        (String::from_str("searchindexer.exe"), ProcessInfo::new("Windows 搜索索引", "系统")),
    );
    list.push((String::from_str("msedge.exe"), ProcessInfo::new("Edge 浏览器", "浏览器")));
    list.push((String::from_str("chrome.exe"), ProcessInfo::new("Chrome 浏览器", "浏览器")));
    list.push((String::from_str("wechat.exe"), ProcessInfo::new("微信", "通讯")));
    list.push((String::from_str("qq.exe"), ProcessInfo::new("QQ", "通讯")));
    list.push((String::from_str("dingtalk.exe"), ProcessInfo::new("钉钉", "办公")));
    list.push((String::from_str("feishu.exe"), ProcessInfo::new("飞书", "办公")));
    list.push((String::from_str("code.exe"), ProcessInfo::new("VS Code", "开发")));
    list.push((String::from_str("steam.exe"), ProcessInfo::new("Steam", "游戏")));
    proof {
        lemma_names_differ();
        assert(list[0].0@ == "svchost.exe"@);
        assert(list[1].0@ == "explorer.exe"@);
        assert(list[2].0@ == "dwm.exe"@);
        assert(list[3].0@ == "searchindexer.exe"@);
        assert(list[4].0@ == "msedge.exe"@);
        assert(list[5].0@ == "chrome.exe"@);
        assert(list[6].0@ == "wechat.exe"@);
        assert(list[7].0@ == "qq.exe"@);
        assert(list[8].0@ == "dingtalk.exe"@);
        assert(list[9].0@ == "feishu.exe"@);
        assert(list[10].0@ == "code.exe"@);
        assert(list[11].0@ == "steam.exe"@);
    }
    list
}

/// The twelve names of the list differ from one another.
proof fn lemma_names_differ()
    ensures
        "svchost.exe"@.len() == 11,
        "explorer.exe"@.len() == 12 && "explorer.exe"@[0] == 'e',
        "dwm.exe"@.len() == 7 && "dwm.exe"@[0] == 'd',
        "searchindexer.exe"@.len() == 17,
        "msedge.exe"@.len() == 10 && "msedge.exe"@[0] == 'm',
        "chrome.exe"@.len() == 10 && "chrome.exe"@[0] == 'c',
        "wechat.exe"@.len() == 10 && "wechat.exe"@[0] == 'w',
        "qq.exe"@.len() == 6,
        "dingtalk.exe"@.len() == 12 && "dingtalk.exe"@[0] == 'd',
        "feishu.exe"@.len() == 10 && "feishu.exe"@[0] == 'f',
        "code.exe"@.len() == 8,
        "steam.exe"@.len() == 9,
{
    reveal_strlit("svchost.exe");
    reveal_strlit("explorer.exe");
    reveal_strlit("dwm.exe");
    reveal_strlit("searchindexer.exe");
    reveal_strlit("msedge.exe");
    reveal_strlit("chrome.exe");
    reveal_strlit("wechat.exe");
    reveal_strlit("qq.exe");
    reveal_strlit("dingtalk.exe");
    reveal_strlit("feishu.exe");
    reveal_strlit("code.exe");
    reveal_strlit("steam.exe");
}

/// What the list of known programs holds of a name, if anything.
pub fn look_up(list: &Vec<(String, ProcessInfo)>, name_lower: &str) -> (i: Option<ProcessInfo>)
    ensures
        match i {
            Some(known) => exists|k: int|
                0 <= k < list.len() && #[trigger] list[k].0@ == name_lower@ && list[k].1@
                    == known@ && forall|j: int| 0 <= j < k ==> list[j].0@ != name_lower@,
            None => forall|k: int| 0 <= k < list.len() ==> #[trigger] list[k].0@ != name_lower@,
        },
{
    let mut k: usize = 0;
    while k < list.len()
        invariant
            k <= list.len(),
            forall|j: int| 0 <= j < k ==> #[trigger] list[j].0@ != name_lower@,
        decreases list.len() - k,
    {
        if same_text(list[k].0.as_str(), name_lower) {
            let known = ProcessInfo {
                chinese_name: list[k].1.chinese_name.clone(),
                category: list[k].1.category.clone(),
            };
            assert(list[k as int].0@ == name_lower@ && list[k as int].1@ == known@);
            return Some(known);
        }
        k = k + 1;
    }
    None
}

/// What the list of known programs holds of a name, if anything.
pub fn by_known_name(name_lower: &str) -> (i: Option<ProcessInfo>)
    ensures
        info_of(i) == listed(name_lower@),
{
    let list = build_known_processes();
    let found = look_up(&list, name_lower);
    proof {
        match &found {
            Some(known) => {
                let k = choose|k: int|
                    0 <= k < list.len() && #[trigger] list[k].0@ == name_lower@ && list[k].1@
                        == known@;
                assert(listed(list[k].0@) == Some(list[k].1@));
            },
            None => {
                if listed(name_lower@) is Some {
                    let k = choose|k: int|
                        0 <= k < list.len() && #[trigger] list[k].0@ == name_lower@;
                    assert(list[k].0@ != name_lower@);
                }
            },
        }
    }
    found
}

/// The category of a program by where it lies.
pub fn by_path(exe_path_lower: &str) -> (i: ProcessInfo)
    ensures
        i@ == placed(exe_path_lower@),
{
    if contains(exe_path_lower, "windows\\system32") || contains(
        exe_path_lower,
        "windows\\syswow64",
    ) {
        ProcessInfo::new("Windows 系统组件", "系统")
    } else if contains(exe_path_lower, "program files") {
        if contains(exe_path_lower, "nvidia") {
            ProcessInfo::new("NVIDIA 驱动", "驱动")
        } else if contains(exe_path_lower, "steam") {
            ProcessInfo::new("Steam", "游戏")
        } else {
            ProcessInfo::new("", "第三方应用")
        }
    } else {
        ProcessInfo::new("", "应用")
    }
}

/// Whether the description of the program file is asked for: a process
/// with a well-known name is classified without it.
pub fn wants_description(name_lower: &str) -> (b: bool)
    ensures
        b == (well_known(name_lower@) is None),
{
    by_well_known_name(name_lower).is_none()
}

/// The friendly name and the category of a process. `name_lower` is its
/// name and `exe_path_lower` the path of its program, both in lower case;
/// `description` is what the program file says of itself, where the caller
/// could read it.
pub fn classify(name_lower: &str, description: Option<&str>, exe_path_lower: &str) -> (i:
    ProcessInfo)
    ensures
        i@ == classified(
            name_lower@,
            match description {
                Some(d) => Some(d@),
                None => None,
            },
            exe_path_lower@,
        ),
{
    match by_well_known_name(name_lower) {
        Some(known) => known,
        None => match description {
            Some(d) => ProcessInfo::new(d, "应用"),
            None => match by_known_name(name_lower) {
                Some(known) => known,
                None => by_path(exe_path_lower),
            },
        },
    }
}

/// The name under which a group of processes is shown.
pub fn display_name(friendly: &str, name: &str) -> (s: String)
    ensures
        s@ == shown_as(friendly@, name@),
{
    if friendly.is_empty() {
        String::from_str(name)
    } else {
        let mut s = String::from_str(friendly);
        s.append(" (");
        s.append(name);
        s.append(")");
        s
    }
}

/// Whether a process counts as part of the system.
pub fn is_system_process(pid: u32, category: &str) -> (b: bool)
    ensures
        b == counts_as_system(pid, category@),
{
    pid < 1000 || same_text(category, "系统")
}

} // verus!
