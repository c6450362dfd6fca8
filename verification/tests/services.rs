use fancontroller::driver::{
    install_and_open, maybe_install_driver, open, DriverPlan, DriverReply, DriverRequest,
    DriverSession, TempVariable, DEVICE, SERVICE, SERVICE_TITLE,
};
use fancontroller::fan::{FanInfo, FanMode, FanType};
use fancontroller::ipc::{handle_ipc_message, is_controllable, Command, IpcMessage};
use fancontroller::monitor::{
    download_lhm, download_script, ensure_lhm_running, find_lhm_exe, hide_window, launch_lhm,
    lhm_is_running, LhmOutcome, LhmPlace, MonitorReply, MonitorRequest, MonitorSession,
};
use fancontroller::session::Session;
use fancontroller::wmi::{LhmControl, LhmHardware, LhmSensor, LhmTables, WmiBackend, WmiError};

fn run<T, O, R>(
    mut operation: impl FnMut(&mut Session<R>) -> Result<T, O>,
    mut partner: impl FnMut(&O, usize) -> R,
) -> (T, Vec<O>) {
    let mut made: Vec<O> = Vec::new();
    loop {
        let replies = made.iter().enumerate().map(|(i, op)| partner(op, i)).collect();
        match operation(&mut Session::new(replies)) {
            Ok(value) => return (value, made),
            Err(op) => made.push(op),
        }
    }
}

fn hardware(identifier: &str, hw_type: &str) -> LhmHardware {
    LhmHardware { identifier: identifier.to_string(), hw_type: hw_type.to_string() }
}

fn sensor(name: &str, rpm: u32, identifier: &str, parent: &str) -> LhmSensor {
    LhmSensor {
        name: name.to_string(),
        rpm,
        identifier: identifier.to_string(),
        parent: parent.to_string(),
    }
}

fn control(parent: &str, duty: u8) -> LhmControl {
    LhmControl { parent: parent.to_string(), duty }
}

#[test]
fn service_fans_are_listed() {
    let tables = LhmTables {
        hardware: Some(vec![
            hardware("/gpu-nvidia/0", "GpuNvidia"),
            hardware("/ATI/0", "AtiCard"),
            hardware("/lpc/nct6798d", "SuperIO"),
        ]),
        sensors: Some(vec![
            sensor("Fan #1", 800, "/lpc/nct6798d/fan/0", "/lpc/nct6798d"),
            sensor("Fan #2", 0, "/lpc/nct6798d/fan/1", "/lpc/nct6798d"),
            sensor("AIO Header", 2900, "/lpc/nct6798d/fan/2", "/LPC/nct6798d"),
            sensor("GPU Fan", 1200, "/gpu-nvidia/0/fan/0", "/GPU-NVIDIA/0"),
            sensor("GPU Fan", 1300, "/ati/0/fan/0", "/ati/0"),
            sensor("W_PUMP+", 3000, "/x/fan/0", "/x"),
            sensor("Chassis", 600, "/x/fan/1", "/x"),
            sensor("Water", 700, "/x/fan/2", "/x"),
        ]),
        controls: Some(vec![control("/Lpc/Nct6798D", 45), control("/lpc/nct6798d", 77)]),
    };
    let fans = WmiBackend::new().scan(Some(tables));
    let seen: Vec<_> = fans
        .iter()
        .map(|f| (f.id.as_str(), f.label.as_str(), f.rpm, f.speed_pct, f.is_pump))
        .collect();
    assert_eq!(
        seen,
        vec![
            ("wmi:/lpc/nct6798d/fan/0", "Fan 1", Some(800), Some(45), false),
            ("wmi:/lpc/nct6798d/fan/2", "Pump 1", Some(2900), Some(45), true),
            ("wmi:/x/fan/0", "Pump 2", Some(3000), None, true),
            ("wmi:/x/fan/1", "Fan 2", Some(600), None, false),
            ("wmi:/x/fan/2", "Pump 3", Some(700), None, true),
        ]
    );
    for f in &fans {
        assert_eq!((f.fan_type, f.mode), (FanType::System, FanMode::Auto));
        assert_eq!((f.rpm_min, f.rpm_max, f.controllable), (None, None, false));
        assert!(f.temperature.is_none());
    }
}

#[test]
fn service_speeds_end_at_100_percent() {
    for (duty, shown) in [(0, 0), (100, 100), (101, 100), (255, 100)] {
        let tables = LhmTables {
            hardware: None,
            sensors: Some(vec![sensor("Fan", 500, "/x/fan", "/x")]),
            controls: Some(vec![control("/X", duty)]),
        };
        assert_eq!(WmiBackend::new().scan(Some(tables))[0].speed_pct, Some(shown));
    }
}

#[test]
fn service_tables_may_be_missing() {
    let backend = WmiBackend::new();
    assert_eq!(backend.name(), "wmi_lhm");
    assert!(backend.scan(None).is_empty());
    let no_sensors = LhmTables {
        hardware: Some(vec![]),
        sensors: None,
        controls: Some(vec![control("/x", 1)]),
    };
    assert!(backend.scan(Some(no_sensors)).is_empty());
    let only_sensors = LhmTables {
        hardware: None,
        sensors: Some(vec![sensor("GPU Fan", 1, "/gpu/fan", "/gpu")]),
        controls: None,
    };
    let fans = backend.scan(Some(only_sensors));
    assert_eq!((fans.len(), fans[0].speed_pct), (1, None));
}

#[test]
fn service_is_read_only() {
    let backend = WmiBackend::new();
    assert_eq!(backend.set_speed_pct("wmi:/x", 50), Err(WmiError::NoControl));
    assert_eq!(backend.reset_to_auto("wmi:/x"), Err(WmiError::NoReset));
    assert_eq!(
        WmiError::NoControl.message(),
        "WMI fan monitoring is read-only. Use Ring0 driver for control."
    );
    assert_eq!(WmiError::NoReset.message(), "WMI fan monitoring is read-only.");
}

fn fan(id: &str, controllable: bool) -> FanInfo {
    FanInfo {
        id: id.to_string(),
        label: "Fan".to_string(),
        fan_type: FanType::System,
        mode: FanMode::Auto,
        rpm: None,
        speed_pct: None,
        temperature: None,
        rpm_min: None,
        rpm_max: None,
        controllable,
        is_pump: false,
    }
}

/// A command in words.
fn words(commands: Vec<Command<(u8, u8)>>) -> Vec<String> {
    commands
        .into_iter()
        .map(|c| match c {
            Command::SetCurve { fan_id, points } => format!("curve {fan_id} {points:?}"),
            Command::SetFixedSpeed { fan_id, pct } => format!("speed {fan_id} {pct}"),
            Command::ResetToDefault { fan_id } => format!("reset {fan_id}"),
            Command::ScanAll => "scan".to_string(),
            Command::RenameFan { fan_id, label } => format!("rename {fan_id} {label}"),
            Command::SaveCustomCurve { fan_id, points } => format!("save {fan_id} {points:?}"),
        })
        .collect()
}

#[test]
fn first_fan_with_the_identifier_decides() {
    let fans = vec![fan("a", true), fan("b", false), fan("b", true), fan("a", false)];
    assert!(is_controllable(&fans, "a"));
    assert!(!is_controllable(&fans, "b"));
    assert!(!is_controllable(&fans, "c"));
    assert!(!is_controllable(&vec![], "a"));
}

#[test]
fn messages_become_commands() {
    let fans = vec![fan("a", true), fan("b", false)];
    let id = |s: &str| s.to_string();
    let handle = |m: IpcMessage<(u8, u8)>| words(handle_ipc_message(m, &fans));
    let points = || vec![(30, 20), (80, 100)];
    let curve = |f: &str| IpcMessage::SetCurve { fan_id: id(f), points: points() };
    let speed = |f: &str| IpcMessage::SetSpeed { fan_id: id(f), rpm_percent: 45 };
    let reset = |f: &str| IpcMessage::ResetToDefault { fan_id: id(f) };
    assert_eq!(handle(curve("a")), vec!["curve a [(30, 20), (80, 100)]"]);
    assert_eq!(handle(speed("a")), vec!["speed a 45"]);
    assert_eq!(handle(reset("a")), vec!["reset a"]);
    for unknown in ["b", "c"] {
        assert!(handle(curve(unknown)).is_empty());
        assert!(handle(speed(unknown)).is_empty());
        assert!(handle(reset(unknown)).is_empty());
    }
    assert_eq!(handle(IpcMessage::Rescan), vec!["scan"]);
    assert_eq!(
        handle(IpcMessage::RenameFan { fan_id: id("b"), label: id("Front") }),
        vec!["rename b Front"]
    );
    assert_eq!(handle(IpcMessage::ResetAll), vec!["reset a", "reset b"]);
    assert_eq!(
        handle(IpcMessage::SaveCustomProfile { fan_id: id("c"), points: points() }),
        vec!["save c [(30, 20), (80, 100)]"]
    );
}

/// A request in words.
fn told(requests: &[DriverRequest]) -> Vec<String> {
    requests
        .iter()
        .map(|r| match r {
            DriverRequest::OpenDevice => "open device".to_string(),
            DriverRequest::Variable(v) => format!("variable {}", v.name()),
            DriverRequest::WriteDriver { path } => format!("write {path}"),
            DriverRequest::OpenManager => "open manager".to_string(),
            DriverRequest::CreateService { path } => format!("create {path}"),
            DriverRequest::OpenService => "open service".to_string(),
            DriverRequest::StartService => "start".to_string(),
            DriverRequest::CloseService => "close service".to_string(),
            DriverRequest::CloseManager => "close manager".to_string(),
            DriverRequest::Wait => "wait".to_string(),
            DriverRequest::DeviceExists => "device?".to_string(),
            DriverRequest::IsElevated => "elevated?".to_string(),
            DriverRequest::ProgramPath => "program?".to_string(),
        })
        .collect()
}

#[test]
fn driver_names() {
    assert_eq!(DEVICE, r"\\.\WinRing0_1_2_0");
    assert_eq!((SERVICE, SERVICE_TITLE), ("WinRing0_1_2_0", "WinRing0 1.2.0"));
    assert_eq!((TempVariable::Temp.name(), TempVariable::Tmp.name()), ("TEMP", "TMP"));
}

#[test]
fn device_that_is_there_is_opened() {
    let (opened, made) =
        run(|r: &mut DriverSession| open(r, 50_000), |_, _| DriverReply::Done(true));
    assert!(opened);
    assert_eq!(told(&made), vec!["open device"]);
}

#[test]
fn driver_is_installed() {
    let (opened, made) = run(
        |r: &mut DriverSession| open(r, 10_000),
        |request, i| match request {
            DriverRequest::OpenDevice => DriverReply::Done(i > 0),
            DriverRequest::Variable(TempVariable::Temp) => {
                DriverReply::Text(Some("D:\\tmp".to_string()))
            }
            DriverRequest::CreateService { .. } => DriverReply::Done(false),
            _ => DriverReply::Done(true),
        },
    );
    assert!(opened);
    assert_eq!(
        told(&made),
        vec![
            "open device",
            "variable TEMP",
            "write D:\\tmp\\WinRing0x64.sys",
            "open manager",
            "create D:\\tmp\\WinRing0x64.sys",
            "open service",
            "start",
            "close service",
            "close manager",
            "wait",
            "open device",
        ]
    );
}

#[test]
fn placeholder_is_not_installed() {
    let (opened, made) =
        run(|r: &mut DriverSession| open(r, 9_999), |_, _| DriverReply::Done(false));
    assert!(!opened);
    assert_eq!(told(&made), vec!["open device"]);
}

#[test]
fn installing_stops_at_failures() {
    let install = |working: &[&str]| {
        run(
            |r: &mut DriverSession| install_and_open(r, 10_000),
            |request, _| match request {
                DriverRequest::Variable(TempVariable::Tmp) if working.contains(&"tmp") => {
                    DriverReply::Text(Some("E:".to_string()))
                }
                DriverRequest::WriteDriver { .. } => DriverReply::Done(working.contains(&"write")),
                DriverRequest::OpenManager => DriverReply::Done(working.contains(&"manager")),
                _ => DriverReply::Done(false),
            },
        )
    };
    let (opened, made) = install(&[]);
    assert!(!opened);
    assert_eq!(
        told(&made),
        vec!["variable TEMP", "variable TMP", "write C:\\Windows\\Temp\\WinRing0x64.sys"]
    );
    let (opened, made) = install(&["tmp", "write"]);
    assert!(!opened);
    assert_eq!(told(&made)[2..], ["write E:\\WinRing0x64.sys", "open manager"]);
    let (opened, made) = install(&["tmp", "write", "manager"]);
    assert!(!opened);
    assert_eq!(
        told(&made)[4..],
        ["create E:\\WinRing0x64.sys", "open service", "close manager", "wait", "open device"]
    );
}

#[test]
fn plans_for_the_driver() {
    let plan = |flag: bool, device: bool, elevated: bool, exe: Option<&str>| {
        run(
            |r: &mut DriverSession| maybe_install_driver(r, flag),
            |request, _| match request {
                DriverRequest::DeviceExists => DriverReply::Done(device),
                DriverRequest::IsElevated => DriverReply::Done(elevated),
                _ => DriverReply::Text(exe.map(|s| s.to_string())),
            },
        )
    };
    let (p, made) = plan(true, false, false, None);
    assert!(matches!(p, DriverPlan::InstallAndExit) && made.is_empty());
    let (p, made) = plan(false, true, false, None);
    assert!(matches!(p, DriverPlan::Continue));
    assert_eq!(told(&made), vec!["device?"]);
    let (p, made) = plan(false, false, true, None);
    assert!(matches!(p, DriverPlan::Continue));
    assert_eq!(told(&made), vec!["device?", "elevated?"]);
    let (p, made) = plan(false, false, false, None);
    assert!(matches!(p, DriverPlan::Continue));
    assert_eq!(told(&made), vec!["device?", "elevated?", "program?"]);
    let (p, _) = plan(false, false, false, Some("C:\\fan.exe"));
    assert!(matches!(p, DriverPlan::Relaunch { exe } if exe == "C:\\fan.exe"));
}

#[test]
fn places_of_the_monitor() {
    assert_eq!(LhmPlace::Bundled.directory(), ("APPDATA", "C:\\"));
    assert_eq!(
        LhmPlace::Bundled.path(),
        vec!["FanController", "lhm", "LibreHardwareMonitor.exe"]
    );
    for (place, variable) in [
        (LhmPlace::ProgramFiles, "ProgramFiles"),
        (LhmPlace::ProgramFilesX86, "ProgramFiles(x86)"),
    ] {
        assert_eq!(place.directory(), (variable, ""));
        assert_eq!(place.path(), vec!["LibreHardwareMonitor", "LibreHardwareMonitor.exe"]);
    }
    assert_eq!(LhmPlace::Desktop.directory(), ("USERPROFILE", ""));
    assert_eq!(LhmPlace::Desktop.path(), vec!["Desktop", "LibreHardwareMonitor.exe"]);
}

#[test]
fn download_script_names_the_directory() {
    let script = download_script("D:\\lhm");
    assert!(script.starts_with("\n$ErrorActionPreference = 'Stop'\n"));
    assert!(script.contains("New-Item -ItemType Directory -Force 'D:\\lhm' | Out-Null\n"));
    assert!(script.contains("    $zip = 'D:\\lhm\\lhm.zip'\n"));
    assert!(script.contains("        $dest = 'D:\\lhm\\' + $entry.Name\n"));
    assert!(script.contains("        if ($entry.Name -eq '') { continue }\n"));
    assert!(script.ends_with("    Write-Host 'OK'\n} catch { Write-Host \"FAIL: $_\" }\n"));
    assert_eq!(script.matches("D:\\lhm").count(), 3);
}

fn printed(text: &str) -> MonitorReply {
    MonitorReply::Printed(Some(text.to_string()))
}

#[test]
fn running_monitor_is_seen() {
    let seen = |reply: fn() -> MonitorReply| {
        run(|r: &mut MonitorSession| lhm_is_running(r), |_, _| reply()).0
    };
    assert!(seen(|| printed("LibreHardwareMonitor.exe   4711 Console")));
    assert!(!seen(|| printed("INFO: No tasks are running")));
    assert!(!seen(|| MonitorReply::Printed(None)));
}

#[test]
fn monitor_is_found_at_the_first_place() {
    let find = |there: &[LhmPlace]| {
        run(
            |r: &mut MonitorSession| find_lhm_exe(r),
            |request, _| match request {
                MonitorRequest::Exists(place) => MonitorReply::Found(there.contains(place)),
                _ => MonitorReply::Done,
            },
        )
    };
    let (place, made) = find(&[LhmPlace::Desktop, LhmPlace::ProgramFilesX86]);
    assert_eq!((place, made.len()), (Some(LhmPlace::ProgramFilesX86), 3));
    let (place, made) = find(&[]);
    assert_eq!(place, None);
    assert_eq!(
        made,
        vec![
            MonitorRequest::Exists(LhmPlace::Bundled),
            MonitorRequest::Exists(LhmPlace::ProgramFiles),
            MonitorRequest::Exists(LhmPlace::ProgramFilesX86),
            MonitorRequest::Exists(LhmPlace::Desktop),
        ]
    );
}

#[test]
fn download_must_succeed_and_be_there() {
    let download = |before: bool, text: &str, after: bool| {
        run(
            |r: &mut MonitorSession| download_lhm(r),
            |request, i| match request {
                MonitorRequest::Exists(_) if i == 0 => MonitorReply::Found(before),
                MonitorRequest::Exists(_) => MonitorReply::Found(after),
                _ => printed(text),
            },
        )
    };
    let (place, made) = download(true, "", true);
    assert_eq!((place, made.len()), (Some(LhmPlace::Bundled), 1));
    let (place, made) = download(false, "OK\r\n", true);
    assert_eq!((place, made.len()), (Some(LhmPlace::Bundled), 3));
    let (place, made) = download(false, "OK\r\n", false);
    assert_eq!((place, made.len()), (None, 3));
    let (place, made) = download(false, "FAIL: no network", true);
    assert_eq!((place, made.len()), (None, 2));
}

#[test]
fn monitor_is_started_unless_running() {
    let ensure = |running: bool, there: bool, online: bool| {
        run(
            |r: &mut MonitorSession| ensure_lhm_running(r),
            |request, i| match request {
                MonitorRequest::ListTasks => {
                    printed(if running { "LibreHardwareMonitor.exe" } else { "" })
                }
                MonitorRequest::Exists(LhmPlace::Desktop) => MonitorReply::Found(there),
                MonitorRequest::Exists(_) => MonitorReply::Found(online && i > 6),
                MonitorRequest::Download => printed(if online { "OK" } else { "FAIL" }),
                MonitorRequest::LookForWindow => MonitorReply::Found(true),
                _ => MonitorReply::Done,
            },
        )
    };
    let (outcome, made) = ensure(true, true, true);
    assert_eq!((outcome, made), (LhmOutcome::AlreadyRunning, vec![MonitorRequest::ListTasks]));
    let (outcome, made) = ensure(false, true, false);
    assert_eq!(outcome, LhmOutcome::Started { place: LhmPlace::Desktop, hidden: true });
    assert_eq!(
        made[5..],
        [
            MonitorRequest::Launch(LhmPlace::Desktop),
            MonitorRequest::LookForWindow,
            MonitorRequest::HideWindow,
        ]
    );
    assert!(!made.contains(&MonitorRequest::Download));
    let (outcome, made) = ensure(false, false, true);
    assert_eq!(outcome, LhmOutcome::Started { place: LhmPlace::Bundled, hidden: true });
    assert_eq!(made[8], MonitorRequest::Launch(LhmPlace::Bundled));
    let (outcome, made) = ensure(false, false, false);
    assert_eq!(outcome, LhmOutcome::Unavailable);
    assert_eq!(*made.last().unwrap(), MonitorRequest::Download);
}

#[test]
fn started_monitor_may_show_no_window() {
    let (hidden, made) = run(
        |r: &mut MonitorSession| launch_lhm(r, LhmPlace::ProgramFiles),
        |_, _| MonitorReply::Done,
    );
    assert!(!hidden);
    assert_eq!((made.len(), made[0]), (31, MonitorRequest::Launch(LhmPlace::ProgramFiles)));
}

#[test]
fn window_is_looked_for_thirty_times() {
    let hide = |appears: usize| {
        run(
            |r: &mut MonitorSession| hide_window(r),
            |request, i| match request {
                MonitorRequest::LookForWindow => MonitorReply::Found(i == appears),
                _ => MonitorReply::Done,
            },
        )
    };
    let (hidden, made) = hide(2);
    assert!(hidden);
    assert_eq!((made.len(), made[3]), (4, MonitorRequest::HideWindow));
    let (hidden, made) = hide(99);
    assert!(!hidden);
    assert_eq!(made, vec![MonitorRequest::LookForWindow; 30]);
}
