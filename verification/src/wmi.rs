//! The fans that a hardware monitoring service reports.
//!
//! The service publishes tables of hardware, of fan sensors and of control sensors. Nothing can
//! be set through it; it is the fallback where the SuperIO chip cannot be reached.
use vstd::prelude::*;

use crate::fan::{
    fan_views, lemma_labels_differ, lemma_pumps_among_fans, next_label, pumps, FanInfo, FanMode,
    FanType, FanView,
};
use crate::text::{chars_of, contains, has_part, lowered, numbered, same, to_lower};

verus! {

/// A piece of hardware in the service's table.
pub struct LhmHardware {
    pub identifier: String,
    pub hw_type: String,
}

/// A fan sensor, its value rounded to a number of revolutions per minute.
pub struct LhmSensor {
    pub name: String,
    pub rpm: u32,
    pub identifier: String,
    pub parent: String,
}

/// A control sensor, its value cut to a number of percent.
pub struct LhmControl {
    pub parent: String,
    pub duty: u8,
}

/// What the service answered to the queries for its tables; `None` where a query failed.
pub struct LhmTables {
    pub hardware: Option<Vec<LhmHardware>>,
    pub sensors: Option<Vec<LhmSensor>>,
    pub controls: Option<Vec<LhmControl>>,
}

/// Why nothing can be set through the service.
#[derive(Clone, Copy, PartialEq, Eq, Structural, Debug)]
pub enum WmiError {
    /// Asked to set a speed.
    NoControl,
    /// Asked to hand a fan back.
    NoReset,
}

/// The fans that the service reports.
pub struct WmiBackend;

/// The entries of a table, none where the query for it failed.
pub open spec fn rows<T>(table: Option<Vec<T>>) -> Seq<T> {
    match table {
        Some(entries) => entries@,
        None => seq![],
    }
}

/// Whether a type of hardware is a graphics card.
pub open spec fn is_gpu_type(hw_type: Seq<char>) -> bool {
    let t = lowered(hw_type);
    has_part(t, "gpu"@) || has_part(t, "nvidia"@) || has_part(t, "ati"@)
}

/// Whether `parent` is a graphics card; letter case makes no difference.
pub open spec fn is_gpu(hardware: Seq<LhmHardware>, parent: Seq<char>) -> bool {
    exists|i: int|
        0 <= i < hardware.len() && is_gpu_type((#[trigger] hardware[i]).hw_type@) && lowered(
            hardware[i].identifier@,
        ) == lowered(parent)
}

/// Whether a sensor is reported: it turns, and does not belong to a graphics card, whose fans
/// other backends report.
pub open spec fn is_listed(hardware: Seq<LhmHardware>, sensor: LhmSensor) -> bool {
    !is_gpu(hardware, sensor.parent@) && sensor.rpm > 0
}

/// The duty cycle of the first control sensor with the given parent, at most 100 percent.
pub open spec fn duty_of(controls: Seq<LhmControl>, parent: Seq<char>) -> Option<u8>
    decreases controls.len(),
{
    if controls.len() == 0 {
        None
    } else if lowered(controls[0].parent@) == lowered(parent) {
        Some(
            if controls[0].duty > 100 {
                100
            } else {
                controls[0].duty
            },
        )
    } else {
        duty_of(controls.drop_first(), parent)
    }
}

/// Whether a sensor's name is that of a pump.
pub open spec fn is_pump_name(name: Seq<char>) -> bool {
    let n = lowered(name);
    has_part(n, "pump"@) || has_part(n, "aio"@) || has_part(n, "w_pump"@) || has_part(n, "water"@)
}

/// A sensor as it is reported after the fans in `found`.
pub open spec fn sensor_fan(
    found: Seq<FanView>,
    controls: Seq<LhmControl>,
    sensor: LhmSensor,
) -> FanView {
    FanView {
        id: "wmi:"@ + sensor.identifier@,
        label: next_label(found, is_pump_name(sensor.name@)),
        fan_type: FanType::System,
        mode: FanMode::Auto,
        rpm: Some(sensor.rpm),
        speed_pct: duty_of(controls, sensor.parent@),
        temperature: None,
        rpm_min: None,
        rpm_max: None,
        controllable: false,
        is_pump: is_pump_name(sensor.name@),
    }
}

/// The fans that are reported of the given sensors, in their order.
pub open spec fn listing(
    hardware: Seq<LhmHardware>,
    controls: Seq<LhmControl>,
    sensors: Seq<LhmSensor>,
) -> Seq<FanView>
    decreases sensors.len(),
{
    if sensors.len() == 0 {
        seq![]
    } else {
        let found = listing(hardware, controls, sensors.drop_last());
        if is_listed(hardware, sensors.last()) {
            found.push(sensor_fan(found, controls, sensors.last()))
        } else {
            found
        }
    }
}

/// The fans that are reported; there are none without a connection to the service.
pub open spec fn service_fans(tables: Option<LhmTables>) -> Seq<FanView> {
    match tables {
        None => seq![],
        Some(t) => listing(rows(t.hardware), rows(t.controls), rows(t.sensors)),
    }
}

fn mentions(text: &Vec<char>, word: &str) -> (out: bool)
    ensures
        out == has_part(text@, word@),
{
    contains(text, &chars_of(word))
}

fn gpu_type(hw_type: &str) -> (out: bool)
    ensures
        out == is_gpu_type(hw_type@),
{
    let t = to_lower(&chars_of(hw_type));
    mentions(&t, "gpu") || mentions(&t, "nvidia") || mentions(&t, "ati")
}

fn pump_name(name: &str) -> (out: bool)
    ensures
        out == is_pump_name(name@),
{
    let n = to_lower(&chars_of(name));
    mentions(&n, "pump") || mentions(&n, "aio") || mentions(&n, "w_pump") || mentions(&n, "water")
}

fn same_ignoring_case(a: &str, b: &str) -> (out: bool)
    ensures
        out == (lowered(a@) == lowered(b@)),
{
    same(&to_lower(&chars_of(a)), &to_lower(&chars_of(b)))
}

fn on_gpu(hardware: &Vec<LhmHardware>, parent: &str) -> (out: bool)
    ensures
        out == is_gpu(hardware@, parent@),
{
    let mut i: usize = 0;
    while i < hardware.len()
        invariant
            i <= hardware@.len(),
            forall|j: int|
                0 <= j < i ==> !(is_gpu_type((#[trigger] hardware@[j]).hw_type@) && lowered(
                    hardware@[j].identifier@,
                ) == lowered(parent@)),
        decreases hardware.len() - i,
    {
        if gpu_type(hardware[i].hw_type.as_str()) && same_ignoring_case(
            hardware[i].identifier.as_str(),
            parent,
        ) {
            return true;
        }
        i = i + 1;
    }
    false
}

fn find_duty(controls: &Vec<LhmControl>, parent: &str) -> (out: Option<u8>)
    ensures
        out == duty_of(controls@, parent@),
{
    let mut i: usize = 0;
    assert(controls@.skip(0) =~= controls@);
    while i < controls.len()
        invariant
            i <= controls@.len(),
            duty_of(controls@.skip(i as int), parent@) == duty_of(controls@, parent@),
        decreases controls.len() - i,
    {
        if same_ignoring_case(controls[i].parent.as_str(), parent) {
            let duty: u8 = controls[i].duty;
            return Some(
                if duty > 100 {
                    100
                } else {
                    duty
                },
            );
        }
        assert(controls@.skip(i as int).drop_first() =~= controls@.skip(i + 1));
        i = i + 1;
    }
    None
}

fn list_fans(
    hardware: &Vec<LhmHardware>,
    controls: &Vec<LhmControl>,
    sensors: &Vec<LhmSensor>,
) -> (fans: Vec<FanInfo>)
    ensures
        fan_views(fans@) == listing(hardware@, controls@, sensors@),
{
    let mut fans: Vec<FanInfo> = Vec::new();
    let mut pump_num: usize = 0;
    let mut i: usize = 0;
    assert(fan_views(fans@) =~= seq![]);
    assert(sensors@.take(0) =~= seq![]);
    while i < sensors.len()
        invariant
            i <= sensors@.len(),
            fans@.len() <= i,
            fan_views(fans@) == listing(hardware@, controls@, sensors@.take(i as int)),
            pump_num == pumps(fan_views(fans@)),
        decreases sensors.len() - i,
    {
        let ghost found = fan_views(fans@);
        let sensor = &sensors[i];
        proof {
            lemma_pumps_among_fans(found);
            assert(sensors@.take(i + 1).drop_last() =~= sensors@.take(i as int));
        }
        if !on_gpu(hardware, sensor.parent.as_str()) && sensor.rpm > 0 {
            let is_pump = pump_name(sensor.name.as_str());
            let label = if is_pump {
                numbered("Pump ", pump_num as u64 + 1)
            } else {
                numbered("Fan ", (fans.len() - pump_num) as u64 + 1)
            };
            let mut id = String::new();
            id.append("wmi:");
            id.append(sensor.identifier.as_str());
            let fan = FanInfo {
                id,
                label,
                fan_type: FanType::System,
                mode: FanMode::Auto,
                rpm: Some(sensor.rpm),
                speed_pct: find_duty(controls, sensor.parent.as_str()),
                temperature: None,
                rpm_min: None,
                rpm_max: None,
                controllable: false,
                is_pump,
            };
            if is_pump {
                pump_num = pump_num + 1;
            }
            assert(fan@.id =~= "wmi:"@ + sensor.identifier@);
            assert(fan@ == sensor_fan(found, controls@, *sensor));
            fans.push(fan);
            assert(fan_views(fans@) =~= found.push(fan@));
            assert(fan_views(fans@).drop_last() =~= found);
        }
        i = i + 1;
    }
    assert(sensors@.take(i as int) =~= sensors@);
    fans
}

impl WmiError {
    /// The error in words.
    pub fn message(&self) -> (out: &'static str)
        ensures
            out@ == (match *self {
                WmiError::NoControl =>
                    "WMI fan monitoring is read-only. Use Ring0 driver for control."@,
                WmiError::NoReset => "WMI fan monitoring is read-only."@,
            }),
    {
        match self {
            WmiError::NoControl => "WMI fan monitoring is read-only. Use Ring0 driver for control.",
            WmiError::NoReset => "WMI fan monitoring is read-only.",
        }
    }
}

impl WmiBackend {
    /// The service needs no preparation.
    pub fn new() -> (out: Self)
        ensures
            out == WmiBackend,
    {
        WmiBackend
    }

    /// The backend's name.
    pub fn name(&self) -> (out: &'static str)
        ensures
            out@ == "wmi_lhm"@,
    {
        "wmi_lhm"
    }

    /// All fans that turn, but those of graphics cards. `tables` is `None` where the service
    /// cannot be reached.
    pub fn scan(&self, tables: Option<LhmTables>) -> (fans: Vec<FanInfo>)
        ensures
            fan_views(fans@) == service_fans(tables),
    {
        match tables {
            None => {
                let fans: Vec<FanInfo> = Vec::new();
                assert(fan_views(fans@) =~= seq![]);
                fans
            },
            Some(t) => {
                let hardware: Vec<LhmHardware> = match t.hardware {
                    Some(hardware) => hardware,
                    None => Vec::new(),
                };
                let sensors: Vec<LhmSensor> = match t.sensors {
                    Some(sensors) => sensors,
                    None => Vec::new(),
                };
                let controls: Vec<LhmControl> = match t.controls {
                    Some(controls) => controls,
                    None => Vec::new(),
                };
                list_fans(&hardware, &controls, &sensors)
            },
        }
    }

    /// Speeds cannot be set through the service.
    pub fn set_speed_pct(&self, _fan_id: &str, _pct: u8) -> (out: Result<(), WmiError>)
        ensures
            out == Err::<(), WmiError>(WmiError::NoControl),
    {
        Err(WmiError::NoControl)
    }

    /// Fans cannot be handed back through the service.
    pub fn reset_to_auto(&self, _fan_id: &str) -> (out: Result<(), WmiError>)
        ensures
            out == Err::<(), WmiError>(WmiError::NoReset),
    {
        Err(WmiError::NoReset)
    }
}

/// Nothing that the service reports can be controlled.
pub proof fn lemma_service_is_read_only(tables: Option<LhmTables>, i: int)
    requires
        0 <= i < service_fans(tables).len(),
    ensures
        !service_fans(tables)[i].controllable,
{
    if let Some(t) = tables {
        lemma_listed(rows(t.hardware), rows(t.controls), rows(t.sensors), i);
    }
}

/// Every fan that is reported comes from a sensor that turns and whose parent is no graphics
/// card; it carries that sensor's identifier and speed.
pub proof fn lemma_listed(
    hardware: Seq<LhmHardware>,
    controls: Seq<LhmControl>,
    sensors: Seq<LhmSensor>,
    i: int,
)
    requires
        0 <= i < listing(hardware, controls, sensors).len(),
    ensures
        exists|j: int|
            0 <= j < sensors.len() && is_listed(hardware, #[trigger] sensors[j]) && listing(
                hardware,
                controls,
                sensors,
            )[i] == sensor_fan(
                listing(hardware, controls, sensors).take(i),
                controls,
                sensors[j],
            ),
    decreases sensors.len(),
{
    let all = listing(hardware, controls, sensors);
    let found = listing(hardware, controls, sensors.drop_last());
    if i < found.len() {
        lemma_listed(hardware, controls, sensors.drop_last(), i);
        let j = choose|j: int|
            0 <= j < sensors.drop_last().len() && is_listed(
                hardware,
                #[trigger] sensors.drop_last()[j],
            ) && found[i] == sensor_fan(found.take(i), controls, sensors.drop_last()[j]);
        assert(found.take(i) =~= all.take(i));
        assert(sensors[j] == sensors.drop_last()[j]);
    } else {
        assert(all.take(i) =~= found);
        assert(sensors[sensors.len() - 1] == sensors.last());
    }
}

/// No speed that is reported is above 100 percent.
pub proof fn lemma_speeds_in_percent(tables: Option<LhmTables>, i: int)
    requires
        0 <= i < service_fans(tables).len(),
    ensures
        service_fans(tables)[i].speed_pct matches Some(pct) ==> pct <= 100,
{
    if let Some(t) = tables {
        lemma_listed(rows(t.hardware), rows(t.controls), rows(t.sensors), i);
        let j = choose|j: int|
            0 <= j < rows(t.sensors).len() && is_listed(
                rows(t.hardware),
                #[trigger] rows(t.sensors)[j],
            ) && service_fans(tables)[i] == sensor_fan(
                service_fans(tables).take(i),
                rows(t.controls),
                rows(t.sensors)[j],
            );
        lemma_duty_in_percent(rows(t.controls), rows(t.sensors)[j].parent@);
    }
}

proof fn lemma_duty_in_percent(controls: Seq<LhmControl>, parent: Seq<char>)
    ensures
        duty_of(controls, parent) matches Some(pct) ==> pct <= 100,
    decreases controls.len(),
{
    if controls.len() > 0 {
        lemma_duty_in_percent(controls.drop_first(), parent);
    }
}

/// Two fans that are reported differ in their labels.
pub proof fn lemma_reported_fans_differ(tables: Option<LhmTables>, i: int, j: int)
    requires
        0 <= i < j < service_fans(tables).len(),
    ensures
        service_fans(tables)[i].label != service_fans(tables)[j].label,
{
    if let Some(t) = tables {
        lemma_listed(rows(t.hardware), rows(t.controls), rows(t.sensors), i);
        lemma_listed(rows(t.hardware), rows(t.controls), rows(t.sensors), j);
        lemma_labels_differ(service_fans(tables), i, j);
    }
}

/// Every sensor that turns and whose parent is no graphics card is reported.
pub proof fn lemma_all_listed(
    hardware: Seq<LhmHardware>,
    controls: Seq<LhmControl>,
    sensors: Seq<LhmSensor>,
    j: int,
)
    requires
        0 <= j < sensors.len(),
        is_listed(hardware, sensors[j]),
    ensures
        exists|i: int|
            0 <= i < listing(hardware, controls, sensors).len() && (#[trigger] listing(
                hardware,
                controls,
                sensors,
            )[i]).id == "wmi:"@ + sensors[j].identifier@,
    decreases sensors.len(),
{
    let all = listing(hardware, controls, sensors);
    let found = listing(hardware, controls, sensors.drop_last());
    if j < sensors.len() - 1 {
        assert(sensors.drop_last()[j] == sensors[j]);
        lemma_all_listed(hardware, controls, sensors.drop_last(), j);
        let i = choose|i: int|
            0 <= i < found.len() && (#[trigger] found[i]).id == "wmi:"@ + sensors[j].identifier@;
        assert(all[i] == found[i]);
    } else {
        assert(all[found.len() as int].id == "wmi:"@ + sensors[j].identifier@);
    }
}

} // verus!
