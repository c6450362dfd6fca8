use fancontroller::amd::{
    self, take_adapters, AdlAdapterInfo, AdlFanSpeedValue, AdlFunction, AdlOdnFanControl, AdlReply,
    AdlRequest, AdlSession, AmdBackend, AmdError,
};
use fancontroller::fan::{FanMode, FanType, Temperature};
use fancontroller::nvapi::{
    self, NvApi, NvError, NvFanCoolerControl, NvFanCoolerControlItem, NvReply, NvRequest,
    NvSession,
};
use fancontroller::nvidia::{
    list_fans, GpuAnswer, GpuFanReading, GpuReading, NvidiaBackend, NvidiaError, NvmlReport,
};
use fancontroller::nvml::{Answer, Question};
use fancontroller::session::Session;

/// Runs an operation against a partner. The replies so far are made anew for each run.
fn run<T, O, R>(
    mut operation: impl FnMut(&mut Session<R>) -> Result<T, O>,
    mut partner: impl FnMut(&O, usize) -> R,
) -> (T, Vec<O>) {
    let mut made: Vec<O> = Vec::new();
    loop {
        let replies = made.iter().enumerate().map(|(i, op)| partner(op, i)).collect();
        match operation(&mut Session::new(replies)) {
            Ok(value) => return (value, made),
            Err(op) => made.push(op),
        }
    }
}

fn item(cooler_id: u32, level: u32, control_mode: u32) -> NvFanCoolerControlItem {
    NvFanCoolerControlItem { cooler_id, level, control_mode }
}

fn block(count: u32, items: Vec<NvFanCoolerControlItem>) -> NvFanCoolerControl {
    NvFanCoolerControl { version: 0x105AC, count, items }
}

/// A driver that has everything, with the given number of cards.
fn nv_driver(count: u32) -> impl Fn(&NvRequest, usize) -> NvReply {
    move |request, _| match request {
        NvRequest::LoadLibrary | NvRequest::FindQuery | NvRequest::QueryInterface { .. } => {
            NvReply::Present(true)
        }
        NvRequest::Initialize | NvRequest::SetControl { .. } => NvReply::Status(0),
        NvRequest::EnumGpus => NvReply::Gpus { status: 0, count },
        NvRequest::GetControl { .. } => NvReply::Control {
            status: 0,
            control: block(2, vec![item(7, 33, 0), item(9, 44, 0), item(11, 55, 0)]),
        },
    }
}

fn nvapi(count: u32) -> NvApi {
    run(|r: &mut NvSession| NvApi::new(r), nv_driver(count)).0.unwrap()
}

fn written(request: &NvRequest) -> (usize, &NvFanCoolerControl) {
    match request {
        NvRequest::SetControl { gpu, control } => (*gpu, control),
        _ => panic!("nothing was written"),
    }
}

#[test]
fn empty_control_block() {
    let control = NvFanCoolerControl::versioned();
    assert_eq!((control.version, control.count, control.items.len()), (1452 + 65536, 0, 32));
    assert!(control.items.iter().all(|i| *i == item(0, 0, 0)));
}

#[test]
fn nvapi_is_opened_step_by_step() {
    let (api, made) = run(|r: &mut NvSession| NvApi::new(r), nv_driver(1));
    assert!(api.is_some());
    assert!(matches!(made[0], NvRequest::LoadLibrary));
    assert!(matches!(made[1], NvRequest::FindQuery));
    assert!(matches!(made[2], NvRequest::QueryInterface { id: 0x0150_E828 }));
    assert!(matches!(made[3], NvRequest::Initialize));
    assert!(matches!(made[4], NvRequest::QueryInterface { id: 0xE5AC_921F }));
    assert!(matches!(made[5], NvRequest::QueryInterface { id: 0x814B_209F }));
    assert!(matches!(made[6], NvRequest::QueryInterface { id: 0xA589_71A5 }));
    assert!(matches!(made[7], NvRequest::EnumGpus));
    assert_eq!(made.len(), 8);
}

#[test]
fn nvapi_needs_every_step() {
    for failing in 0..8 {
        let (api, made) = run(
            |r: &mut NvSession| NvApi::new(r),
            |request, i| {
                if i == failing {
                    match request {
                        NvRequest::Initialize => NvReply::Status(-6),
                        NvRequest::EnumGpus => NvReply::Gpus { status: -1, count: 1 },
                        _ => NvReply::Present(false),
                    }
                } else {
                    nv_driver(1)(request, i)
                }
            },
        );
        assert!(api.is_none());
        assert_eq!(made.len(), failing + 1);
    }
    assert!(run(|r: &mut NvSession| NvApi::new(r), nv_driver(0)).0.is_none());
}

#[test]
fn nvapi_has_at_most_64_cards() {
    let api = nvapi(1000);
    assert_eq!(run(|r: &mut NvSession| api.set_fans(r, 63, None), nv_driver(1)).0, Ok(()));
    assert_eq!(
        run(|r: &mut NvSession| api.set_fans(r, 64, None), nv_driver(1)).0,
        Err(NvError::NoSuchGpu { gpu: 64 })
    );
}

#[test]
fn nvapi_sets_the_coolers_that_are_there() {
    let api = nvapi(2);
    let (res, made) = run(|r: &mut NvSession| api.set_fans(r, 1, Some(70)), nv_driver(2));
    assert_eq!((res, made.len()), (Ok(()), 2));
    assert!(matches!(&made[0], NvRequest::GetControl { gpu: 1, control }
        if control.version == 0x105AC && control.count == 0));
    let (gpu, control) = written(&made[1]);
    assert_eq!((gpu, control.version, control.count), (1, 0x105AC, 2));
    assert_eq!(control.items, vec![item(7, 70, 1), item(9, 70, 1), item(11, 55, 0)]);
}

#[test]
fn nvapi_levels_end_at_100() {
    let (_, made) = run(|r: &mut NvSession| nvapi(1).set_fans(r, 0, Some(255)), nv_driver(1));
    assert_eq!(written(&made[1]).1.items[0], item(7, 100, 1));
}

#[test]
fn nvapi_hands_the_coolers_back() {
    let (_, made) = run(|r: &mut NvSession| nvapi(1).set_fans(r, 0, None), nv_driver(1));
    let control = written(&made[1]).1;
    assert_eq!(control.items, vec![item(7, 0, 0), item(9, 0, 0), item(11, 55, 0)]);
}

#[test]
fn nvapi_failures() {
    let api = nvapi(1);
    let with = |get: i32, count: u32, set: i32| {
        run(
            |r: &mut NvSession| api.set_fans(r, 0, Some(50)),
            |request, _| match request {
                NvRequest::GetControl { .. } => NvReply::Control {
                    status: get,
                    control: block(count, vec![item(0, 0, 0); 32]),
                },
                _ => NvReply::Status(set),
            },
        )
        .0
    };
    assert_eq!(with(0, 1, 0), Ok(()));
    assert_eq!(with(0, 99, 0), Ok(()));
    assert_eq!(with(-5, 1, 0), Err(NvError::GetFailed { status: -5 }));
    assert_eq!(with(0, 0, 0), Err(NvError::NoCoolers));
    assert_eq!(with(0, 1, -104), Err(NvError::SetFailed { status: -104 }));
}

#[test]
fn nvapi_errors_in_words() {
    assert_eq!(NvError::NoSuchGpu { gpu: 12 }.message(), "NVAPI: GPU index 12 out of range");
    assert_eq!(
        NvError::GetFailed { status: -104 }.message(),
        "NVAPI ClientFanCoolersGetControl failed (status -104)"
    );
    assert_eq!(NvError::NoCoolers.message(), "NVAPI reported no controllable GPU fan coolers");
    assert_eq!(
        NvError::SetFailed { status: 7 }.message(),
        "NVAPI ClientFanCoolersSetControl failed (status 7)"
    );
    assert_eq!((nvapi::LIBRARY, nvapi::QUERY_FUNCTION), ("nvapi64.dll", "nvapi_QueryInterface"));
}

#[test]
fn nvidia_identifiers() {
    assert_eq!(NvidiaBackend::parse_id("nvidia:0:1"), Ok((0, 1)));
    assert_eq!(NvidiaBackend::parse_id("nvidia:3"), Ok((3, 0)));
    assert_eq!(NvidiaBackend::parse_id("nvidia:nvidia:3:+4"), Ok((3, 4)));
    assert_eq!(NvidiaBackend::parse_id("nvidia:4294967295:4294967295"), Ok((u32::MAX, u32::MAX)));
    for id in ["nvidia:", "nvidia:x", "nvidia:1:", "nvidia::1", "nvidia:1:2:3", "nvidia:4294967296"]
    {
        assert_eq!(NvidiaBackend::parse_id(id), Err(NvidiaError::BadNumber), "{id}");
    }
    for id in ["", "nvidia", "amd:0", "sio:0"] {
        assert_eq!(NvidiaBackend::parse_id(id), Err(NvidiaError::NotNvidia), "{id}");
    }
}

fn fan_reading(rpm: Option<u32>, speed: Option<u32>) -> GpuFanReading {
    GpuFanReading { rpm: Answer::supposed(rpm), speed: Answer::supposed(speed) }
}

fn gpu(
    index: u32,
    name: Option<&str>,
    temperature: Option<u32>,
    num_fans: Option<u32>,
    fans: Vec<GpuFanReading>,
) -> GpuAnswer {
    GpuAnswer {
        index,
        contact: Answer::supposed(Some(())),
        gpu: Some(GpuReading {
            name: Answer::supposed(name.map(|n| n.to_string())),
            temperature: Answer::supposed(temperature),
            num_fans: Answer::supposed(num_fans),
            fans,
        }),
    }
}

#[test]
fn supposed_answers_ask_nothing() {
    let answer = Answer::supposed(Some(7));
    assert_eq!((answer.asked(), *answer.value()), (Question::Supposed, Some(7)));
}

#[test]
fn nvidia_fans_are_listed() {
    let report = NvmlReport {
        count: Answer::supposed(Some(4)),
        gpus: vec![
            gpu(
                0,
                Some("RTX"),
                Some(61),
                Some(2),
                vec![fan_reading(Some(1500), Some(42)), fan_reading(None, Some(150))],
            ),
            GpuAnswer { index: 1, contact: Answer::supposed(None), gpu: None },
            gpu(2, None, None, None, vec![fan_reading(None, None)]),
            gpu(3, Some("GTX"), Some(30), Some(0), vec![fan_reading(Some(0), Some(100))]),
        ],
    };
    let fans = list_fans(&report);
    let seen: Vec<_> = fans
        .iter()
        .map(|f| (f.id.as_str(), f.label.as_str(), f.rpm, f.speed_pct))
        .collect();
    assert_eq!(
        seen,
        vec![
            ("nvidia:0:0", "RTX Fan 1", Some(1500), Some(42)),
            ("nvidia:0:1", "RTX Fan 2", None, Some(100)),
            ("nvidia:2:0", "NVIDIA GPU Fan", None, None),
            ("nvidia:3:0", "GTX Fan", Some(0), Some(100)),
        ]
    );
    assert!(matches!(fans[0].temperature, Some(Temperature::Celsius(61))));
    assert!(fans[2].temperature.is_none());
    for f in &fans {
        assert_eq!((f.fan_type, f.mode), (FanType::Nvidia, FanMode::Auto));
        assert_eq!((f.rpm_min, f.rpm_max), (Some(0), Some(3500)));
        assert!(f.controllable && !f.is_pump);
        assert!(NvidiaBackend::parse_id(&f.id).is_ok());
    }
}

#[test]
fn nvidia_without_the_private_interface() {
    let backend = NvidiaBackend::new(None);
    assert_eq!(backend.name(), "nvidia_nvml");
    let mut none = NvSession::new(vec![]);
    assert!(matches!(
        backend.set_speed_pct(&mut none, "nvidia:0:0", 50),
        Ok(Err(NvidiaError::NoControlApi))
    ));
    assert!(matches!(
        backend.reset_to_auto(&mut none, "nvidia:0:0"),
        Ok(Err(NvidiaError::NoResetApi))
    ));
    assert!(matches!(
        backend.set_speed_pct(&mut none, "amd:0", 50),
        Ok(Err(NvidiaError::NotNvidia))
    ));
    assert!(matches!(
        backend.reset_to_auto(&mut none, "nvidia:a"),
        Ok(Err(NvidiaError::BadNumber))
    ));
}

#[test]
fn nvidia_scan_lists_drivable_fans() {
    for fan in NvidiaBackend::new(None).scan() {
        assert!(fan.controllable);
        assert!(NvidiaBackend::parse_id(&fan.id).is_ok());
    }
}

#[test]
fn nvidia_speeds_have_bounds() {
    let backend = NvidiaBackend::new(Some(nvapi(2)));
    for (pct, level) in [(0, 30), (29, 30), (30, 30), (64, 64), (100, 100), (200, 100)] {
        let (res, made) = run(
            |r: &mut NvSession| backend.set_speed_pct(r, "nvidia:1:5", pct),
            nv_driver(2),
        );
        assert_eq!(res, Ok(()));
        let (gpu, control) = written(&made[1]);
        assert_eq!((gpu, control.items[0]), (1, item(7, level, 1)));
    }
    let (res, made) =
        run(|r: &mut NvSession| backend.reset_to_auto(r, "nvidia:1:0"), nv_driver(2));
    assert_eq!(res, Ok(()));
    assert_eq!(written(&made[1]).1.items[1], item(9, 0, 0));
    let (res, _) =
        run(|r: &mut NvSession| backend.set_speed_pct(r, "nvidia:2:0", 50), nv_driver(2));
    assert_eq!(res, Err(NvidiaError::Api(NvError::NoSuchGpu { gpu: 2 })));
}

#[test]
fn nvidia_errors_in_words() {
    assert_eq!(NvidiaError::NotNvidia.message().as_deref(), Some("not nvidia"));
    assert_eq!(NvidiaError::BadNumber.message(), None);
    assert_eq!(
        NvidiaError::NoControlApi.message().as_deref(),
        Some(
            "NVAPI nicht verfügbar (nvapi64.dll fehlt oder keine NVIDIA-GPU). \
             GPU-Lüftersteuerung ist unter Windows nur über NVAPI möglich."
        )
    );
    assert_eq!(
        NvidiaError::NoResetApi.message().as_deref(),
        Some("NVAPI nicht verfügbar — GPU-Lüfter können nicht zurückgesetzt werden.")
    );
    assert_eq!(
        NvidiaError::Api(NvError::NoCoolers).message(),
        Some(NvError::NoCoolers.message())
    );
}

fn settings(mode: i32, current: i32, target: i32) -> AdlOdnFanControl {
    AdlOdnFanControl {
        mode,
        fan_control_mode: 3,
        current_fan_speed_mode: 1,
        current_fan_speed: current,
        target_fan_speed: target,
        target_temperature: 80,
        min_performance_clock: 300,
        max_fan_speed: 3300,
        min_fan_speed: 500,
        auto_system_command_fan_speed: 20,
    }
}

fn adapter(index: i32, vendor_id: i32, present: i32, name: &str) -> AdlAdapterInfo {
    AdlAdapterInfo { index, vendor_id, present, name: name.to_string() }
}

/// A library that has the given functions, with two adapters, on which every call succeeds.
fn adl_library(functions: Vec<AdlFunction>) -> impl Fn(&AdlRequest, usize) -> AdlReply {
    move |request, _| match request {
        AdlRequest::LoadLibrary { other } => AdlReply::Present(*other),
        AdlRequest::Find(f) => AdlReply::Present(functions.contains(f)),
        AdlRequest::Create => AdlReply::Created { status: 0, context: true },
        AdlRequest::CountAdapters => AdlReply::Count(3),
        AdlRequest::DescribeAdapters { .. } => AdlReply::Adapters(vec![
            adapter(0, 0x1002, 1, "  Radeon RX \t"),
            adapter(1, 0x10DE, 1, "Other"),
            adapter(4, 0x1002, -1, " "),
        ]),
        AdlRequest::GetFanControl { .. } => {
            AdlReply::FanControl { status: 0, control: settings(0, 37, 0) }
        }
        AdlRequest::GetFanSpeed { .. } => AdlReply::FanSpeed { status: 0, speed: 44 },
        AdlRequest::GetTemperature { .. } => {
            AdlReply::TemperatureRead { status: 0, temperature: 56500 }
        }
        _ => AdlReply::Status(0),
    }
}

fn all_functions() -> Vec<AdlFunction> {
    vec![
        AdlFunction::Create,
        AdlFunction::Destroy,
        AdlFunction::NumberOfAdapters,
        AdlFunction::AdapterInfo,
        AdlFunction::OdnFanControlGet,
        AdlFunction::OdnFanControlSet,
        AdlFunction::Od5FanSpeedGet,
        AdlFunction::Od5FanSpeedSet,
        AdlFunction::Od5FanSpeedToDefault,
        AdlFunction::Od5TemperatureGet,
    ]
}

fn without(missing: AdlFunction) -> Vec<AdlFunction> {
    all_functions().into_iter().filter(|f| *f != missing).collect()
}

fn amd_backend(functions: Vec<AdlFunction>) -> AmdBackend {
    run(|r: &mut AdlSession| AmdBackend::new(r), adl_library(functions)).0
}

#[test]
fn adl_names() {
    let names: Vec<&str> = all_functions().iter().map(|f| f.symbol()).collect();
    assert_eq!(
        names,
        vec![
            "ADL2_Main_Control_Create",
            "ADL2_Main_Control_Destroy",
            "ADL2_Adapter_NumberOfAdapters_Get",
            "ADL2_Adapter_AdapterInfo_Get",
            "ADL2_OverdriveN_FanControl_Get",
            "ADL2_OverdriveN_FanControl_Set",
            "ADL2_Overdrive5_FanSpeed_Get",
            "ADL2_Overdrive5_FanSpeed_Set",
            "ADL2_Overdrive5_FanSpeedToDefault_Set",
            "ADL2_Overdrive5_Temperature_Get",
        ]
    );
    assert_eq!((amd::LIBRARY, amd::OTHER_LIBRARY), ("atiadlxx.dll", "atiadlxy.dll"));
}

#[test]
fn amd_adapters_are_taken() {
    let infos = vec![
        adapter(0, 0x1002, 0, "gone"),
        adapter(1, 0x1002, 1, " Radeon "),
        adapter(2, 0x8086, 1, "other"),
        adapter(-3, 0x1002, 2, "\u{3000}"),
    ];
    let taken: Vec<(i32, String)> =
        take_adapters(&infos).into_iter().map(|a| (a.index, a.name)).collect();
    assert_eq!(taken, vec![(1, "Radeon".to_string()), (-3, "AMD GPU -3".to_string())]);
}

#[test]
fn amd_is_opened_step_by_step() {
    let (backend, made) =
        run(|r: &mut AdlSession| AmdBackend::new(r), adl_library(all_functions()));
    assert_eq!(backend.name(), "amd_adl");
    assert_eq!(
        made,
        vec![
            AdlRequest::LoadLibrary { other: false },
            AdlRequest::LoadLibrary { other: true },
            AdlRequest::Find(AdlFunction::Create),
            AdlRequest::Create,
            AdlRequest::Find(AdlFunction::NumberOfAdapters),
            AdlRequest::CountAdapters,
            AdlRequest::Find(AdlFunction::AdapterInfo),
            AdlRequest::DescribeAdapters { count: 3 },
        ]
    );
}

#[test]
fn amd_without_the_library_drives_nothing() {
    let none = || |_: &AdlRequest, _: usize| AdlReply::Present(false);
    let no_context = |request: &AdlRequest, i: usize| match request {
        AdlRequest::Create => AdlReply::Created { status: -1, context: false },
        _ => adl_library(all_functions())(request, i),
    };
    let no_adapters = |request: &AdlRequest, i: usize| match request {
        AdlRequest::CountAdapters => AdlReply::Count(0),
        _ => adl_library(all_functions())(request, i),
    };
    let backends = [
        run(|r: &mut AdlSession| AmdBackend::new(r), none()).0,
        run(|r: &mut AdlSession| AmdBackend::new(r), no_context).0,
        run(|r: &mut AdlSession| AmdBackend::new(r), no_adapters).0,
        amd_backend(without(AdlFunction::Create)),
        amd_backend(without(AdlFunction::NumberOfAdapters)),
    ];
    for mut backend in backends {
        let (fans, made) = run(|r: &mut AdlSession| backend.scan(r), none());
        assert!(fans.is_empty() && made.is_empty());
        let (res, _) = run(|r: &mut AdlSession| backend.set_speed_pct(r, "amd:0", 50), none());
        assert_eq!(res, Err(AmdError::NotLoaded));
        let (res, _) = run(|r: &mut AdlSession| backend.reset_to_auto(r, "amd:0"), none());
        assert_eq!(res, Err(AmdError::NotLoaded));
        assert!(run(|r: &mut AdlSession| backend.close(r), none()).1.is_empty());
    }
}

#[test]
fn amd_fans_are_listed() {
    let backend = amd_backend(all_functions());
    let fans = run(|r: &mut AdlSession| backend.scan(r), adl_library(all_functions())).0;
    let seen: Vec<_> = fans
        .iter()
        .map(|f| (f.id.as_str(), f.label.as_str(), f.rpm, f.speed_pct))
        .collect();
    assert_eq!(
        seen,
        vec![
            ("amd:0", "Radeon RX Fan", None, Some(37)),
            ("amd:4", "AMD GPU 4 Fan", None, Some(37)),
        ]
    );
    for f in &fans {
        assert_eq!((f.fan_type, f.mode), (FanType::Amd, FanMode::Auto));
        assert_eq!((f.rpm_min, f.rpm_max), (Some(0), None));
        assert!(f.controllable && !f.is_pump);
        assert!(matches!(f.temperature, Some(Temperature::Millidegrees(56500))));
    }
    let bare = amd_backend(without(AdlFunction::AdapterInfo));
    assert!(run(|r: &mut AdlSession| bare.scan(r), adl_library(all_functions())).0.is_empty());
}

#[test]
fn amd_speed_comes_from_either_interface() {
    let odn = |status: i32, current: i32| {
        run(
            |r: &mut AdlSession| AmdBackend::read_fan_pct(r, 0),
            |request, i| match request {
                AdlRequest::GetFanControl { .. } => {
                    AdlReply::FanControl { status, control: settings(0, current, 0) }
                }
                _ => adl_library(all_functions())(request, i),
            },
        )
        .0
    };
    assert_eq!(odn(0, 37), Some(37));
    assert_eq!(odn(0, 101), Some(100));
    assert_eq!(odn(0, 0), Some(44));
    assert_eq!(odn(1, 37), Some(44));
    let od5 = |status: i32, speed: i32| {
        run(
            |r: &mut AdlSession| AmdBackend::read_fan_pct(r, 0),
            |request, i| match request {
                AdlRequest::GetFanSpeed { value, .. } => {
                    let blank =
                        AdlFanSpeedValue { size: 16, speed_type: 2, fan_speed: 0, flags: 0 };
                    assert_eq!(*value, blank);
                    AdlReply::FanSpeed { status, speed }
                }
                _ => adl_library(without(AdlFunction::OdnFanControlGet))(request, i),
            },
        )
        .0
    };
    assert_eq!(od5(0, -5), Some(0));
    assert_eq!(od5(0, 99), Some(99));
    assert_eq!(od5(-1, 99), None);
    let neither = run(
        |r: &mut AdlSession| AmdBackend::read_fan_pct(r, 0),
        |_: &AdlRequest, _| AdlReply::Present(false),
    );
    assert_eq!((neither.0, neither.1.len()), (None, 2));
}

#[test]
fn amd_temperature_units() {
    let read = |status: i32, temperature: i32| {
        run(
            |r: &mut AdlSession| AmdBackend::read_temp(r, 0),
            |request, i| match request {
                AdlRequest::GetTemperature { size: 8, .. } => {
                    AdlReply::TemperatureRead { status, temperature }
                }
                _ => adl_library(all_functions())(request, i),
            },
        )
        .0
    };
    assert!(matches!(read(0, 60), Some(Temperature::Celsius(60))));
    assert!(matches!(read(0, 1000), Some(Temperature::Celsius(1000))));
    assert!(matches!(read(0, 1001), Some(Temperature::Millidegrees(1001))));
    assert!(read(0, 0).is_none());
    assert!(read(0, -1).is_none());
    assert!(read(1, 60).is_none());
}

#[test]
fn amd_is_set_by_overdrive_n() {
    for (pct, level) in [(0, 20), (20, 20), (55, 55), (100, 100), (101, 100)] {
        let (res, made) = run(
            |r: &mut AdlSession| AmdBackend::apply_pct(r, 3, pct),
            adl_library(all_functions()),
        );
        assert_eq!(res, Ok(()));
        assert_eq!(
            made,
            vec![
                AdlRequest::Find(AdlFunction::OdnFanControlGet),
                AdlRequest::Find(AdlFunction::OdnFanControlSet),
                AdlRequest::GetFanControl { adapter: 3 },
                AdlRequest::SetFanControl { adapter: 3, control: settings(1, 37, level) },
            ]
        );
    }
}

#[test]
fn amd_is_set_by_overdrive_5_otherwise() {
    let value = AdlFanSpeedValue { size: 16, speed_type: 2, fan_speed: 60, flags: 1 };
    let expected = AdlRequest::SetFanSpeed { adapter: 3, value };
    for missing in [AdlFunction::OdnFanControlGet, AdlFunction::OdnFanControlSet] {
        let (res, made) = run(
            |r: &mut AdlSession| AmdBackend::apply_pct(r, 3, 60),
            adl_library(without(missing)),
        );
        assert_eq!((res, *made.last().unwrap()), (Ok(()), expected));
        assert_eq!(made.len(), 4);
    }
    for failing in 2..4 {
        let (res, made) = run(
            |r: &mut AdlSession| AmdBackend::apply_pct(r, 3, 60),
            |request, i| {
                if i == failing {
                    AdlReply::Status(-1)
                } else {
                    adl_library(all_functions())(request, i)
                }
            },
        );
        assert_eq!((res, *made.last().unwrap()), (Ok(()), expected));
    }
}

#[test]
fn amd_setting_can_fail() {
    let backend = amd_backend(all_functions());
    let (res, _) = run(
        |r: &mut AdlSession| backend.set_speed_pct(r, "amd:3", 60),
        |request, i| match request {
            AdlRequest::Find(_) => adl_library(all_functions())(request, i),
            _ => AdlReply::Status(-1),
        },
    );
    assert_eq!(res, Err(AmdError::ControlFailed { adapter: 3 }));
    let (res, _) = run(
        |r: &mut AdlSession| backend.reset_to_auto(r, "amd:3"),
        |request, i| match request {
            AdlRequest::Find(_) => adl_library(all_functions())(request, i),
            _ => AdlReply::Status(-1),
        },
    );
    assert_eq!(res, Err(AmdError::ResetFailed));
}

#[test]
fn amd_is_handed_back() {
    let backend = amd_backend(all_functions());
    let (res, made) = run(
        |r: &mut AdlSession| backend.reset_to_auto(r, "amd:4"),
        |request, i| match request {
            AdlRequest::SetFanControl { .. } => AdlReply::Status(-1),
            _ => adl_library(all_functions())(request, i),
        },
    );
    assert_eq!(res, Ok(()));
    assert_eq!(
        *made.last().unwrap(),
        AdlRequest::SetFanControl { adapter: 4, control: settings(0, 37, 0) }
    );
    let (res, made) = run(
        |r: &mut AdlSession| AmdBackend::reset_fan(r, 4),
        adl_library(without(AdlFunction::OdnFanControlSet)),
    );
    assert_eq!(res, Ok(()));
    assert_eq!(*made.last().unwrap(), AdlRequest::SetFanSpeedToDefault { adapter: 4 });
}

#[test]
fn amd_identifiers() {
    let backend = amd_backend(all_functions());
    let set = |id: &str| {
        run(|r: &mut AdlSession| backend.set_speed_pct(r, id, 50), adl_library(all_functions())).0
    };
    for id in ["amd:0", "amd:-2147483648", "amd:+7", "amd:amd:1"] {
        assert_eq!(set(id), Ok(()), "{id}");
    }
    for id in ["amd:", "amd:-", "amd:2147483648", "amd:1.0"] {
        assert_eq!(set(id), Err(AmdError::BadNumber), "{id}");
    }
    for id in ["", "amd", "sio:0", "nvidia:0:0"] {
        assert_eq!(set(id), Err(AmdError::NotAmd), "{id}");
    }
}

#[test]
fn amd_context_is_given_back_once() {
    let mut backend = amd_backend(all_functions());
    let (_, made) = run(|r: &mut AdlSession| backend.close(r), adl_library(all_functions()));
    assert_eq!(made, vec![AdlRequest::Find(AdlFunction::Destroy), AdlRequest::Destroy]);
    let (_, made) = run(|r: &mut AdlSession| backend.close(r), adl_library(all_functions()));
    assert!(made.is_empty());
    let (fans, _) = run(|r: &mut AdlSession| backend.scan(r), adl_library(all_functions()));
    assert!(fans.is_empty());
}

#[test]
fn amd_errors_in_words() {
    assert_eq!(AmdError::NotAmd.message().as_deref(), Some("not amd"));
    assert_eq!(AmdError::BadNumber.message(), None);
    assert_eq!(AmdError::NotLoaded.message().as_deref(), Some("ADL not loaded"));
    assert_eq!(
        AmdError::ControlFailed { adapter: -12 }.message().as_deref(),
        Some("ADL fan control failed for adapter -12")
    );
    assert_eq!(AmdError::ResetFailed.message().as_deref(), Some("ADL reset failed"));
}
