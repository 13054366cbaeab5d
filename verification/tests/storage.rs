use std::collections::BTreeMap;

use route_tool::addr::{IpAddr, Ipv4Addr};
use route_tool::autostart::{
    init_and_migrate, load_enabled_from_file, migrate, query_run_value, run_key_data,
    save_enabled_to_file, set_enabled, set_run_value, settings_path, settings_text, Migration,
    RunAction, SettingAction, SettingChange, SettingReply,
};
use route_tool::error::CoreError;
use route_tool::ip_text::{ip_to_text, parse_ip};
use route_tool::log_prune::{count_deleted, prune_old_logs, LogFile, Span};
use route_tool::logs::{
    format_local_hms, log_file_name, newest_entries, read_log_line, read_logs, shown_time,
    split_line, strip_target, write_time_of_day, LogEntry, CORE_LOG_DIR,
};
use route_tool::protocol::{
    AdapterSnapshot, AppConfig, HealthStatus, RuntimeState, SwitchMode, Timestamp,
};
use route_tool::state_store::{
    clear_error, dirs_error, join, AtomicWrite, JsonRead, StateStore, WriteAction, CONFIG_FILE,
    RUNTIME_FILE, SNAPSHOT_FILE,
};

const NOW: Timestamp = Timestamp { secs: 5, nanos: 0 };

/// A disk in memory, and what it holds as values.
#[derive(Default)]
struct Disk {
    files: BTreeMap<String, String>,
    fail_at: Option<&'static str>,
}

impl Disk {
    fn fails(&self, step: &'static str) -> Result<(), String> {
        if self.fail_at == Some(step) {
            Err("disk".to_string())
        } else {
            Ok(())
        }
    }

    fn write(
        &mut self,
        begun: Result<(AtomicWrite, WriteAction), CoreError>,
    ) -> Result<(), CoreError> {
        let (mut w, mut action) = begun?;
        loop {
            let reply = match action {
                WriteAction::CreateDir(_) => self.fails("dir"),
                WriteAction::CreateTemp(p) => self.fails("temp").map(|_| {
                    self.files.insert(p, String::new());
                }),
                WriteAction::Write(p, t) => self.fails("write").map(|_| {
                    self.files.insert(p, t);
                }),
                WriteAction::Sync(_) => self.fails("sync"),
                WriteAction::Rename(a, b) => self.fails("rename").map(|_| {
                    if let Some(t) = self.files.remove(&a) {
                        self.files.insert(b, t);
                    }
                }),
                WriteAction::SyncDir(_) => self.fails("syncdir"),
                WriteAction::Finish(r) => return r,
            };
            action = match w.step(reply) {
                Some(a) => a,
                None => panic!("writing ends with its result"),
            };
        }
    }
}

impl Disk {
    fn read<T>(&self, path: &str, parse: fn(serde_json::Value) -> Option<T>) -> JsonRead<T> {
        match self.files.get(path) {
            None => JsonRead::Missing,
            Some(text) => match serde_json::from_str(text).ok().and_then(parse) {
                Some(value) => JsonRead::Parsed(value),
                None => JsonRead::Corrupt,
            },
        }
    }
}

fn store() -> StateStore {
    StateStore::new(r"C:\data".to_string())
}

#[test]
fn config_round_trip_with_defaults() {
    let s = store();
    let cfg = match s.load_config(JsonRead::Missing) {
        Ok(c) => c,
        Err(e) => panic!("{}", e.message()),
    };
    assert_eq!(cfg.health_check_interval_secs, 5);

    let mut cfg = cfg;
    cfg.bypass_ip = IpAddr::V4(Ipv4Addr::new(192, 168, 2, 1));
    cfg.adapter_id = "abc-123".to_string();
    let mut object = serde_json::Map::new();
    object.insert("adapter_id".to_string(), cfg.adapter_id.clone().into());
    object.insert("bypass_ip".to_string(), ip_to_text(cfg.bypass_ip).into());
    let mut disk = Disk::default();
    let text = serde_json::to_string_pretty(&object).map_err(|e| e.to_string());
    assert!(disk.write(s.save_config(text)).is_ok());

    let kept = match disk.files.get(r"C:\data\config.json") {
        Some(text) => serde_json::from_str::<serde_json::Value>(text),
        None => panic!("nothing was saved"),
    };
    let read = match kept {
        Ok(v) => {
            let mut c = AppConfig::default();
            c.adapter_id = v["adapter_id"].as_str().unwrap_or("").to_string();
            if let Some(ip) = v["bypass_ip"].as_str().and_then(parse_ip) {
                c.bypass_ip = ip;
            }
            JsonRead::Parsed(c)
        }
        Err(_) => JsonRead::Corrupt,
    };
    let back = match s.load_config(read) {
        Ok(c) => c,
        Err(e) => panic!("{}", e.message()),
    };
    assert_eq!(back.adapter_id, "abc-123");
    assert_eq!(ip_to_text(back.bypass_ip), "192.168.2.1");
}

fn runtime_text(rs: &RuntimeState) -> Result<String, String> {
    let mode = match rs.current_mode {
        Some(SwitchMode::RouteOverlay) => "routeoverlay",
        Some(SwitchMode::AdapterReconfig) => "adapterreconfig",
        None => "",
    };
    let health = match rs.health {
        HealthStatus::Healthy => "healthy",
        _ => "idle",
    };
    let mut object = serde_json::Map::new();
    object.insert("is_enabled".to_string(), rs.is_enabled.into());
    object.insert("current_mode".to_string(), mode.into());
    object.insert("health".to_string(), health.into());
    serde_json::to_string_pretty(&object).map_err(|e| e.to_string())
}

fn parse_runtime(v: serde_json::Value) -> Option<RuntimeState> {
    Some(RuntimeState {
        is_enabled: v["is_enabled"].as_bool()?,
        current_mode: match v["current_mode"].as_str()? {
            "routeoverlay" => Some(SwitchMode::RouteOverlay),
            "adapterreconfig" => Some(SwitchMode::AdapterReconfig),
            _ => None,
        },
        health: match v["health"].as_str()? {
            "healthy" => HealthStatus::Healthy,
            _ => HealthStatus::Idle,
        },
        ..RuntimeState::default_at(NOW)
    })
}

fn snapshot_text(snap: &AdapterSnapshot) -> Result<String, String> {
    let mut object = serde_json::Map::new();
    object.insert("adapter_id".to_string(), snap.adapter_id.clone().into());
    object.insert("is_dhcp_enabled".to_string(), snap.is_dhcp_enabled.into());
    serde_json::to_string_pretty(&object).map_err(|e| e.to_string())
}

fn parse_snapshot(v: serde_json::Value) -> Option<AdapterSnapshot> {
    Some(AdapterSnapshot {
        adapter_id: v["adapter_id"].as_str()?.to_string(),
        is_dhcp_enabled: v["is_dhcp_enabled"].as_bool()?,
        static_ipv4: vec![],
        static_ipv4_mask: vec![],
        gateway: vec![],
        dns: vec![],
    })
}

#[test]
fn runtime_round_trip() {
    let s = store();
    let mut disk = Disk::default();
    let rs = RuntimeState {
        is_enabled: true,
        current_mode: Some(SwitchMode::AdapterReconfig),
        health: HealthStatus::Healthy,
        ..RuntimeState::default_at(NOW)
    };
    assert!(disk.write(s.save_runtime(runtime_text(&rs))).is_ok());
    let back = match s.load_runtime(disk.read(r"C:\data\runtime_state.json", parse_runtime), NOW) {
        Ok(r) => r,
        Err(e) => panic!("{}", e.message()),
    };
    assert!(back.is_enabled);
    assert_eq!(back.current_mode, Some(SwitchMode::AdapterReconfig));
    assert_eq!(back.health, HealthStatus::Healthy);
    assert!(matches!(
        s.load_runtime(disk.read("elsewhere", parse_runtime), NOW),
        Ok(r) if r == RuntimeState::default_at(NOW)
    ));
    assert!(disk.write(s.save_runtime(Ok("{".to_string()))).is_ok());
    assert!(matches!(
        s.load_runtime(disk.read(r"C:\data\runtime_state.json", parse_runtime), NOW),
        Ok(r) if r == RuntimeState::default_at(NOW)
    ));
}

#[test]
fn corrupted_file_treated_as_missing() {
    let s = store();
    let cfg: AppConfig = match s.load_config(JsonRead::Corrupt) {
        Ok(c) => c,
        Err(e) => panic!("{}", e.message()),
    };
    assert_eq!(cfg.adapter_id, "");
    let unreadable: Result<AppConfig, CoreError> =
        s.load_config(JsonRead::Unreadable("denied".to_string()));
    match unreadable {
        Ok(_) => panic!("the file cannot be read"),
        Err(e) => assert_eq!(
            e.message(),
            r"状态持久化失败：读取 C:\data\config.json 失败: denied"
        ),
    }
}

#[test]
fn snapshot_clear_is_idempotent() {
    let s = store();
    let mut disk = Disk::default();
    let file = s.path(SNAPSHOT_FILE);
    assert!(matches!(s.load_snapshot(disk.read(&file, parse_snapshot)), Ok(None)));
    let snap = AdapterSnapshot {
        adapter_id: "guid-1".to_string(),
        is_dhcp_enabled: true,
        static_ipv4: vec![],
        static_ipv4_mask: vec![],
        gateway: vec![],
        dns: vec![],
    };
    assert!(disk.write(s.save_snapshot(snapshot_text(&snap))).is_ok());
    assert!(matches!(
        s.load_snapshot(disk.read(&file, parse_snapshot)),
        Ok(Some(b)) if b.adapter_id == "guid-1" && b.is_dhcp_enabled
    ));

    let exists = disk.files.contains_key(&s.path(SNAPSHOT_FILE));
    match s.clear_snapshot(exists) {
        Some(path) => {
            assert_eq!(path, r"C:\data\adapter_snapshot.json");
            disk.files.remove(&path);
        }
        None => panic!("there is a backup"),
    }
    let exists = disk.files.contains_key(&s.path(SNAPSHOT_FILE));
    assert!(!exists);
    assert!(matches!(s.load_snapshot(disk.read(&file, parse_snapshot)), Ok(None)));
    assert!(s.clear_snapshot(exists).is_none());
    assert_eq!(clear_error("x").message(), "状态持久化失败：删除快照失败: x");
}

#[test]
fn atomic_write_leaves_no_tmp_file() {
    let s = store();
    let mut disk = Disk::default();
    assert!(disk.write(s.save_runtime(Ok("{}".to_string()))).is_ok());
    let names: Vec<&String> = disk.files.keys().collect();
    assert!(names.contains(&&s.path(RUNTIME_FILE)));
    assert!(!names.iter().any(|n| n.contains(".tmp")), "{names:?}");
}

#[test]
fn failed_write_keeps_the_old_file() {
    let s = store();
    let path = s.path(CONFIG_FILE);
    for (step, text) in [
        ("dir", r"状态持久化失败：创建 C:\data 失败: disk"),
        ("temp", "状态持久化失败：创建临时文件失败: disk"),
        ("write", "状态持久化失败：写入临时文件失败: disk"),
        ("sync", "状态持久化失败：fsync 失败: disk"),
        ("rename", r"状态持久化失败：rename 到 C:\data\config.json 失败: disk"),
    ] {
        let mut disk = Disk::default();
        disk.files.insert(path.clone(), "old".to_string());
        disk.fail_at = Some(step);
        match disk.write(s.save_config(Ok("new".to_string()))) {
            Ok(()) => panic!("{step} fails"),
            Err(e) => assert_eq!(e.message(), text),
        }
        assert_eq!(disk.files.get(&path).map(String::as_str), Some("old"));
    }
    // That the directory cannot be synced does not matter.
    let mut disk = Disk::default();
    disk.fail_at = Some("syncdir");
    assert!(disk.write(s.save_config(Ok("new".to_string()))).is_ok());
    assert_eq!(disk.files.get(&path).map(String::as_str), Some("new"));

    match disk.write(s.save_config(Err("cycle".to_string()))) {
        Ok(()) => panic!("nothing to write"),
        Err(e) => assert_eq!(e.message(), "状态持久化失败：序列化失败: cycle"),
    }
}

#[test]
fn paths_of_the_store() {
    assert_eq!(StateStore::default().base_dir(), r"C:\ProgramData\BypassTool");
    assert_eq!(store().clone().ensure_dirs(), r"C:\data\logs");
    assert_eq!(join(r"C:\data\", "x"), r"C:\data\x");
    assert_eq!(StateStore::default().ensure_dirs(), CORE_LOG_DIR);
    assert_eq!(join("C:", "x"), "C:x");
    assert_eq!(join("c:", "x"), "c:x");
    assert_eq!(join("1:", "x"), r"1:\x");
    assert_eq!(join("CC:", "x"), r"CC:\x");
    assert_eq!(join(r"C:\", "x"), r"C:\x");
    assert_eq!(dirs_error("x").message(), "状态持久化失败：创建数据目录失败: x");
}

// ---- logs -----------------------------------------------------------------

fn file(name: &str, secs: Option<u64>) -> LogFile {
    LogFile {
        name: name.to_string(),
        age: secs.map(|secs| Span { secs, nanos: 1 }),
    }
}

#[test]
fn retention_zero_deletes_all_prefixed_files() {
    let files = Some(vec![
        file("app.log.2020-01-01", Some(0)),
        file("app.log.2020-01-02", Some(3)),
        file("other.txt", Some(3)),
    ]);
    let zero = Span { secs: 0, nanos: 0 };
    assert_eq!(prune_old_logs(&files, "app.log", zero), vec![0, 1]);
    assert_eq!(count_deleted(&vec![true, true]), 2);
    assert_eq!(count_deleted(&vec![true, false, true]), 2);
    assert_eq!(count_deleted(&vec![false]), 0);
    assert_eq!(count_deleted(&vec![]), 0);
}

#[test]
fn fresh_files_within_retention_are_kept() {
    let files = Some(vec![file("app.log.2026-09-08", Some(10))]);
    assert!(prune_old_logs(&files, "app.log", Span::log_retention()).is_empty());
    let files = Some(vec![
        file("app.log.a", Some(7 * 24 * 3600)),
        file("app.log.b", Some(7 * 24 * 3600 - 1)),
        file("app.log.c", None),
    ]);
    assert_eq!(
        prune_old_logs(&files, "app.log", Span::log_retention()),
        vec![0]
    );
}

#[test]
fn missing_dir_is_silent() {
    assert_eq!(
        prune_old_logs(&None, "app.log", Span::log_retention()).len(),
        0
    );
}

#[test]
fn log_lines_are_taken_apart() {
    let line = "2026-09-09T08:40:22.123456Z  INFO module::path: message: more";
    let (time, level, rest) = split_line(line);
    assert_eq!(time, "2026-09-09T08:40:22.123456Z");
    assert_eq!(level, "INFO");
    assert_eq!(rest, "module::path: message: more");
    assert_eq!(strip_target(&rest), "message: more");
    assert_eq!(strip_target("no target"), "no target");
    assert_eq!(strip_target("a::b c"), "a::b c");
    let (time, level, rest) = split_line("alone");
    assert_eq!((time.as_str(), level.as_str(), rest.as_str()), ("alone", "", "alone"));

    match read_log_line(line) {
        Some(e) => {
            assert_eq!(e.level, "INFO");
            assert_eq!(e.message, "message: more");
            assert_eq!(e.time.len(), 8);
        }
        None => panic!("not blank"),
    }
    match read_log_line("xTy.z warn a: b") {
        Some(e) => {
            assert_eq!(e.time, "y");
            assert_eq!(e.level, "WARN");
            assert_eq!(e.message, "b");
        }
        None => panic!("not blank"),
    }
    assert!(read_log_line("  \t").is_none());
}

#[test]
fn times_are_shown_as_time_of_day() {
    let t = format_local_hms("2026-09-09T08:40:22.123456Z");
    assert_eq!(t.len(), 8);
    assert!(t.ends_with(":22"), "{t}");
    assert_eq!(format_local_hms("2026-99-09T08:40:22.123456Z"), "08:40:22");
    assert_eq!(format_local_hms("2026T08:40"), "08:40");
    assert_eq!(format_local_hms("nonsense"), "nonsense");
    assert_eq!(shown_time("2026T08:40", None), "08:40");
    // 2026-09-09T08:40:22Z, eight hours ahead and nine and a half behind.
    assert_eq!(shown_time("x", Some((1_788_943_222, 0, 28_800))), "16:40:22");
    assert_eq!(shown_time("x", Some((1_788_943_222, 999_999_999, 0))), "08:40:22");
    assert_eq!(shown_time("x", Some((1_788_943_222, 0, -34_200))), "23:10:22");
    assert_eq!(write_time_of_day(0, 0, 0), "00:00:00");
    assert_eq!(write_time_of_day(-1, 0, 0), "23:59:59");
    assert_eq!(write_time_of_day(86_399, 1_500_000_000, 0), "23:59:60");
    assert_eq!(write_time_of_day(0, 0, -1), "23:59:59");
    for raw in [
        "2026-09-09T08:40:22.123456Z",
        "2026-01-31T23:59:59+05:30",
        "2016-12-31T23:59:60Z",
        "1969-07-20T20:17:40-04:00",
        "0000-01-01T00:00:00Z",
        "9999-12-31T23:59:59Z",
    ] {
        let local = match chrono::DateTime::parse_from_rfc3339(raw) {
            Ok(t) => t.with_timezone(&chrono::Local).format("%H:%M:%S").to_string(),
            Err(_) => panic!("{raw} is a time"),
        };
        assert_eq!(format_local_hms(raw), local);
    }
    assert_eq!(log_file_name("route-tool-ui", "2026-09-09"), "route-tool-ui.log.2026-09-09");
}

fn entry(time: &str, message: &str) -> LogEntry {
    LogEntry {
        time: time.to_string(),
        level: String::new(),
        message: message.to_string(),
    }
}

#[test]
fn entries_are_sorted_by_time_and_cut() {
    let out = newest_entries(&vec![entry("2", "a"), entry("1", "b"), entry("2", "c"), entry("1", "d")]);
    let order: Vec<&str> = out.iter().map(|e| e.message.as_str()).collect();
    assert_eq!(order, vec!["b", "d", "a", "c"]);

    let many: Vec<LogEntry> = (0..250).map(|i| entry(&format!("{i:03}"), "")).collect();
    let out = newest_entries(&many);
    assert_eq!(out.len(), 200);
    assert_eq!(out[0].time, "050");
    assert_eq!(out[199].time, "249");

    let files = vec!["zTb info x: 2\n\nzTa info x: 1\r\n".to_string(), "zTc info x: 3".to_string()];
    let order: Vec<String> = read_logs(&files).into_iter().map(|e| e.message).collect();
    assert_eq!(order, vec!["1", "2", "3"]);
}

// ---- autostart ------------------------------------------------------------

#[test]
fn run_key_data_has_tray_arg() {
    let data = run_key_data(&Some(r"C:\Program Files\x.exe".to_string()));
    assert!(data.contains("--tray"), "{data}");
    assert!(data.starts_with('"'), "{data}");
    assert_eq!(data, "\"C:\\Program Files\\x.exe\" --tray");
    assert_eq!(run_key_data(&None), "\"route-tool-ui.exe\" --tray");
}

#[test]
fn settings_path_under_appdata() {
    let p = match settings_path(&Some(r"C:\Users\test\AppData\Roaming".to_string())) {
        Some(p) => p,
        None => panic!("APPDATA is set"),
    };
    assert_eq!(p, r"C:\Users\test\AppData\Roaming\RouteTool\ui_settings.json");
    let parts: Vec<&str> = p.split('\\').collect();
    assert_eq!(parts[parts.len() - 1], "ui_settings.json");
    assert_eq!(parts[parts.len() - 2], "RouteTool");
    assert!(settings_path(&None).is_none());
}

#[test]
fn setting_reads_back() {
    assert_eq!(settings_text(true), "{\n  \"launch_at_startup\": true\n}");
    for enabled in [true, false] {
        assert_eq!(
            load_enabled_from_file(&Some(settings_text(enabled))),
            Some(enabled)
        );
        match save_enabled_to_file(&Some(r"C:\u".to_string()), enabled) {
            Ok((path, text)) => {
                assert_eq!(path, r"C:\u\RouteTool\ui_settings.json");
                assert_eq!(load_enabled_from_file(&Some(text)), Some(enabled));
            }
            Err(e) => panic!("{e}"),
        }
    }
    assert_eq!(
        save_enabled_to_file(&None, true),
        Err("无法定位 APPDATA 目录".to_string())
    );
    assert_eq!(load_enabled_from_file(&None), None);
    assert_eq!(load_enabled_from_file(&Some("{".to_string())), None);
    assert_eq!(load_enabled_from_file(&Some("{}".to_string())), None);
    let odd = "{\"launch_at_startup\":\"true\"}".to_string();
    assert_eq!(load_enabled_from_file(&Some(odd)), None);
    let other = "{\"a\":1,\"launch_at_startup\":false}".to_string();
    assert_eq!(load_enabled_from_file(&Some(other)), Some(false));
}

#[test]
fn startup_brings_the_registry_in_line() {
    assert_eq!(
        migrate(None, &Some("v".to_string()), "w"),
        Migration { enabled: true, change: Some(true) }
    );
    assert_eq!(
        migrate(None, &Some("w".to_string()), "w"),
        Migration { enabled: true, change: None }
    );
    assert_eq!(migrate(None, &None, "w"), Migration { enabled: false, change: None });
    assert_eq!(
        migrate(Some(false), &Some("w".to_string()), "w"),
        Migration { enabled: false, change: Some(false) }
    );
    assert_eq!(
        migrate(Some(true), &None, "w"),
        Migration { enabled: true, change: Some(true) }
    );
    // Once settled, nothing more changes.
    assert_eq!(
        migrate(Some(true), &Some("w".to_string()), "w"),
        Migration { enabled: true, change: None }
    );
    assert_eq!(
        migrate(Some(false), &None, "w"),
        Migration { enabled: false, change: None }
    );
}

fn change(enable: bool, codes: &[u32]) -> (Vec<String>, Result<(), String>, Vec<u8>) {
    let (mut c, mut action) = set_run_value(enable, "ab");
    let mut log = Vec::new();
    let mut bytes = Vec::new();
    for code in codes {
        match action {
            RunAction::Open => log.push("open".to_string()),
            RunAction::Write(b) => {
                log.push("write".to_string());
                bytes = b;
            }
            RunAction::Delete => log.push("delete".to_string()),
            RunAction::Close => log.push("close".to_string()),
            RunAction::Finish(_) => panic!("too many codes"),
        }
        action = match c.step(*code) {
            Some(a) => a,
            None => panic!("over"),
        };
    }
    match action {
        RunAction::Finish(r) => (log, r, bytes),
        _ => panic!("too few codes"),
    }
}

#[test]
fn registry_value_is_changed() {
    let (log, r, bytes) = change(true, &[0, 0, 0]);
    assert_eq!(log, vec!["open", "write", "close"]);
    assert_eq!(r, Ok(()));
    assert_eq!(bytes, vec![0x61, 0, 0x62, 0, 0, 0]);
    assert_eq!(change(true, &[5]).1, Err("打开 Run 键失败: 5".to_string()));
    assert_eq!(change(true, &[0, 5, 0]).1, Err("写入 Run 键值失败: 5".to_string()));
    assert_eq!(change(false, &[0, 2, 0]).1, Ok(()));
    assert_eq!(change(false, &[0, 0, 0]).0, vec!["open", "delete", "close"]);
    assert_eq!(change(false, &[0, 5, 0]).1, Err("删除 Run 键值失败: 5".to_string()));
}

/// A machine: the registry value, the text of the settings file, and the step that fails.
struct Machine {
    run: Option<Vec<u16>>,
    file: Option<String>,
    fails: &'static str,
    log: Vec<&'static str>,
}

impl Machine {
    fn new(run: Option<&str>, file: Option<String>) -> Machine {
        Machine {
            run: run.map(route_tool::encoding::to_wide),
            file,
            fails: "",
            log: Vec::new(),
        }
    }

    fn read(&self) -> Result<Option<String>, String> {
        if self.fails == "read" {
            return query_run_value(5, &vec![], 0);
        }
        match &self.run {
            Some(units) => query_run_value(0, units, 2 * units.len() as u32),
            None => query_run_value(2, &vec![], 0),
        }
    }

    fn code(&mut self, step: &'static str) -> u32 {
        self.log.push(step);
        if self.fails == step {
            5
        } else {
            0
        }
    }

    fn settle(&mut self, begun: (SettingChange, SettingAction)) -> Result<bool, String> {
        let (mut change, mut action) = begun;
        loop {
            let reply = match action {
                SettingAction::Run(RunAction::Open) => SettingReply::Code(self.code("open")),
                SettingAction::Run(RunAction::Write(bytes)) => {
                    let code = self.code("write");
                    if code == 0 {
                        let units = bytes.chunks(2).map(|b| b[0] as u16 + 256 * b[1] as u16);
                        self.run = Some(units.collect());
                    }
                    SettingReply::Code(code)
                }
                SettingAction::Run(RunAction::Delete) => {
                    let code = self.code("delete");
                    if code == 0 {
                        self.run = None;
                    }
                    SettingReply::Code(code)
                }
                SettingAction::Run(RunAction::Close) => SettingReply::Code(self.code("close")),
                SettingAction::Run(RunAction::Finish(_)) => panic!("settling goes on"),
                SettingAction::WriteFile(path, text) => {
                    assert_eq!(path, r"C:\u\RouteTool\ui_settings.json");
                    if self.code("file") == 0 {
                        self.file = Some(text);
                        SettingReply::Written(Ok(()))
                    } else {
                        SettingReply::Written(Err("full".to_string()))
                    }
                }
                SettingAction::Finish(r) => return r,
            };
            action = match change.step(reply) {
                Some(next) => next,
                None => panic!("every answer was asked for"),
            };
        }
    }

    fn start(&mut self) -> Result<bool, String> {
        let begun = init_and_migrate(&self.file, self.read(), &appdata(), &exe());
        self.settle(begun)
    }

    fn pick(&mut self, enable: bool) -> Result<bool, String> {
        let begun = set_enabled(enable, &appdata(), &exe());
        self.settle(begun)
    }
}

fn appdata() -> Option<String> {
    Some(r"C:\u".to_string())
}

fn exe() -> Option<String> {
    Some("x.exe".to_string())
}

#[test]
fn startup_settles_the_setting() {
    // An old value is inherited and brought to the current form; then all is settled.
    let mut m = Machine::new(Some("\"x.exe\""), None);
    assert_eq!(m.start(), Ok(true));
    assert_eq!(m.log, vec!["open", "write", "close", "file"]);
    assert_eq!(m.read(), Ok(Some(run_key_data(&exe()))));
    assert_eq!(load_enabled_from_file(&m.file), Some(true));
    m.log.clear();
    assert_eq!(m.start(), Ok(true));
    assert_eq!(m.log, vec!["file"]);
    assert_eq!(m.read(), Ok(Some(run_key_data(&exe()))));

    // The user's choice comes before what the registry holds.
    let mut m = Machine::new(Some("\"x.exe\""), Some(settings_text(false)));
    assert_eq!(m.start(), Ok(false));
    assert_eq!(m.log, vec!["open", "delete", "close", "file"]);
    assert_eq!(m.read(), Ok(None));
    let mut m = Machine::new(None, Some(settings_text(true)));
    assert_eq!(m.start(), Ok(true));
    assert_eq!(m.read(), Ok(Some(run_key_data(&exe()))));
    let mut m = Machine::new(None, None);
    assert_eq!(m.start(), Ok(false));
    assert_eq!(m.log, vec!["file"]);
}

#[test]
fn failed_run_value_leaves_the_settings_file() {
    for (fails, error, log) in [
        ("read", "读取 Run 键失败: 5", vec![]),
        ("open", "打开 Run 键失败: 5", vec!["open"]),
        ("write", "写入 Run 键值失败: 5", vec!["open", "write", "close"]),
    ] {
        let mut m = Machine::new(None, Some(settings_text(true)));
        m.fails = fails;
        assert_eq!(m.start(), Err(error.to_string()));
        assert_eq!(m.log, log);
        assert_eq!(m.file, Some(settings_text(true)));
    }
    for (fails, enable) in [("open", true), ("write", true), ("open", false), ("delete", false)] {
        let mut m = Machine::new(Some("old"), Some("kept".to_string()));
        m.fails = fails;
        assert!(m.pick(enable).is_err());
        assert_eq!(m.file, Some("kept".to_string()));
        assert!(!m.log.contains(&"file"));
    }
    let mut m = Machine::new(None, None);
    m.fails = "file";
    assert_eq!(m.start(), Err("full".to_string()));
    let begun = init_and_migrate(&None, Ok(None), &None, &exe());
    assert_eq!(m.settle(begun), Err("无法定位 APPDATA 目录".to_string()));
}

#[test]
fn choice_lasts() {
    for enable in [true, false] {
        let mut m = Machine::new(Some("old"), None);
        assert_eq!(m.pick(enable), Ok(enable));
        let command = if enable { Some(run_key_data(&exe())) } else { None };
        assert_eq!(m.read(), Ok(command.clone()));
        m.log.clear();
        assert_eq!(m.start(), Ok(enable));
        assert_eq!(m.log, vec!["file"]);
        assert_eq!(m.read(), Ok(command));
        // What closing the key comes to does not matter.
        m.fails = "close";
        assert_eq!(m.pick(!enable), Ok(!enable));
    }
    // An answer that was not asked for changes nothing.
    let (mut change, _) = set_enabled(true, &appdata(), &exe());
    assert!(change.step(SettingReply::Written(Ok(()))).is_none());
    assert!(matches!(
        change.step(SettingReply::Code(0)),
        Some(SettingAction::Run(RunAction::Write(_)))
    ));
}

#[test]
fn registry_value_reads_back() {
    let exe = Some(r"C:\程序\x.exe".to_string());
    let data = run_key_data(&exe);
    let mut buf = route_tool::encoding::to_wide(&data);
    let size = 2 * buf.len() as u32;
    buf.extend([7, 7, 7]);
    assert_eq!(query_run_value(0, &buf, size), Ok(Some(data)));
    assert_eq!(query_run_value(2, &buf, size), Ok(None));
    assert_eq!(
        query_run_value(5, &buf, size),
        Err("读取 Run 键失败: 5".to_string())
    );
}
