//! The fans of the motherboard, driven through its SuperIO chip.
use vstd::prelude::*;
use std::collections::HashMap;

use crate::fan::{
    at_least, fan_views, floored, lemma_pumps_among_fans, next_label, pumps, FanInfo, FanMode,
    FanType, FanView,
};
use crate::fintek::{self, Fintek};
use crate::ite::{self, Ite};
use crate::nct6687::{self, Nct6687};
use crate::nuvoton::{self, Nuvoton};
use crate::ports::{PortOp, PortTalk, Ports};
use crate::session::{ran, replay, Dialogue};
use crate::superio::{
    detecting, family_id, family_of, reading_raw_id, ChipFamily, SuperIoChip, SIO_PORT_1,
    SIO_PORT_2,
};
use crate::text::{
    begins, begins_with, chars_of, digits, numbered, parse_usize, parsed_unsigned, push_number,
    strip_prefix, without_prefix,
};

verus! {

broadcast use crate::session::group_replay;

/// Why a fan of the motherboard cannot be driven.
#[derive(Clone, Copy, PartialEq, Eq, Structural, Debug)]
pub enum SystemError {
    /// The fan belongs to another backend.
    NotSuperIo,
    /// The fan's number cannot be read.
    BadNumber,
    /// The driver for port access is not open.
    NoDriver,
    /// No supported chip was found.
    NoChip,
}

/// The fans of the motherboard.
pub struct SystemFanBackend {
    /// Whether the driver for port access is open.
    ring0: bool,
    chip: Option<SuperIoChip>,
    /// The control mode of each fan as it was before the first manual write, by which the fan is
    /// handed back to the firmware.
    saved_modes: HashMap<usize, u8>,
}

/// The contents of a [`SystemFanBackend`].
pub struct SystemView {
    pub ring0: bool,
    pub chip: Option<SuperIoChip>,
    pub saved_modes: Map<usize, u8>,
}

impl View for SystemFanBackend {
    type V = SystemView;

    closed spec fn view(&self) -> SystemView {
        SystemView { ring0: self.ring0, chip: self.chip, saved_modes: self.saved_modes@ }
    }
}

/// The identifier of a fan.
pub open spec fn fan_id_of(fan: usize) -> Seq<char> {
    "sio:"@ + digits(fan as nat)
}

/// The number of the fan that an identifier names.
pub open spec fn fan_number(id: Seq<char>) -> Result<usize, SystemError> {
    if !begins_with(id, "sio:"@) {
        Err(SystemError::NotSuperIo)
    } else {
        match parsed_unsigned(without_prefix(id, "sio:"@), usize::MAX as nat) {
            Some(n) => Ok(n as usize),
            None => Err(SystemError::BadNumber),
        }
    }
}

/// Finds the chip, provided that the driver is open.
pub open spec fn opening(driver_open: bool) -> PortTalk<SystemView> {
    if driver_open {
        detecting().bind(
            |chip: Option<SuperIoChip>|
                Dialogue::End(SystemView { ring0: true, chip, saved_modes: Map::empty() }),
        )
    } else {
        Dialogue::End(SystemView { ring0: false, chip: None, saved_modes: Map::empty() })
    }
}

/// Reads a fan's speed from the chip.
pub open spec fn reading_chip_rpm(chip: SuperIoChip, fan: usize) -> PortTalk<Option<u32>> {
    match chip.family {
        ChipFamily::Nuvoton => nuvoton::reading_rpm(chip.iobase, fan, chip.modern),
        ChipFamily::Nct6687 => nct6687::reading_rpm(chip.iobase, fan),
        ChipFamily::Ite => ite::reading_rpm(chip.iobase, fan),
        ChipFamily::Fintek => fintek::reading_rpm(chip.iobase, fan),
    }
}

/// Reads a fan's duty cycle from the chip.
pub open spec fn reading_chip_pwm(chip: SuperIoChip, fan: usize) -> PortTalk<Option<u8>> {
    match chip.family {
        ChipFamily::Nuvoton => nuvoton::reading_pwm(chip.iobase, fan, chip.modern),
        ChipFamily::Nct6687 => nct6687::reading_pwm(chip.iobase, fan),
        ChipFamily::Ite => ite::reading_pwm(chip.iobase, fan),
        ChipFamily::Fintek => fintek::reading_pwm(chip.iobase, fan),
    }
}

/// Switches a fan to manual control.
pub open spec fn setting_chip_pwm(chip: SuperIoChip, fan: usize, pct: u8) -> PortTalk<()> {
    match chip.family {
        ChipFamily::Nuvoton => nuvoton::setting_pwm(chip.iobase, fan, pct, chip.modern),
        ChipFamily::Nct6687 => nct6687::setting_pwm(chip.iobase, fan, pct),
        ChipFamily::Ite => ite::setting_pwm(chip.iobase, fan, pct),
        ChipFamily::Fintek => fintek::setting_pwm(chip.iobase, fan, pct),
    }
}

/// Hands a fan back to automatic control; only Nuvoton chips restore a saved mode.
pub open spec fn resetting_chip_pwm(
    chip: SuperIoChip,
    fan: usize,
    restore: Option<u8>,
) -> PortTalk<()> {
    match chip.family {
        ChipFamily::Nuvoton => nuvoton::resetting_pwm(chip.iobase, fan, chip.modern, restore),
        ChipFamily::Nct6687 => nct6687::resetting_pwm(chip.iobase, fan),
        ChipFamily::Ite => ite::resetting_pwm(chip.iobase, fan),
        ChipFamily::Fintek => fintek::resetting_pwm(chip.iobase, fan),
    }
}

/// Reads a fan's speed, if there is a chip and a way to reach it.
pub open spec fn reading_rpm(b: SystemView, fan: usize) -> PortTalk<Option<u32>> {
    match b.chip {
        Some(chip) if b.ring0 => reading_chip_rpm(chip, fan),
        _ => Dialogue::End(None),
    }
}

/// Reads a fan's duty cycle, if there is a chip and a way to reach it.
pub open spec fn reading_pwm(b: SystemView, fan: usize) -> PortTalk<Option<u8>> {
    match b.chip {
        Some(chip) if b.ring0 => reading_chip_pwm(chip, fan),
        _ => Dialogue::End(None),
    }
}

/// A fan that turns, as a scan reports it after the fans in `found`.
pub open spec fn found_fan(
    found: Seq<FanView>,
    fan: usize,
    rpm: u32,
    is_pump: bool,
    pct: Option<u8>,
) -> FanView {
    FanView {
        id: fan_id_of(fan),
        label: next_label(found, is_pump),
        fan_type: FanType::System,
        mode: FanMode::Auto,
        rpm: Some(rpm),
        speed_pct: pct,
        temperature: None,
        rpm_min: Some(0),
        rpm_max: None,
        controllable: true,
        is_pump,
    }
}

/// Decides whether a fan of the given speed is a pump: it turns very fast, and then its duty
/// cycle, which is read for this, is above 90 percent.
pub open spec fn judging_pump(b: SystemView, fan: usize, rpm: u32) -> PortTalk<bool> {
    if rpm > 2500 {
        reading_pwm(b, fan).bind(
            |pct: Option<u8>|
                Dialogue::End(
                    match pct {
                        Some(p) => p > 90,
                        None => false,
                    },
                ),
        )
    } else {
        Dialogue::End(false)
    }
}

/// Adds a fan to the ones in `found` if it turns.
pub open spec fn scanning_fan(b: SystemView, found: Seq<FanView>, fan: usize) -> PortTalk<
    Seq<FanView>,
> {
    reading_rpm(b, fan).bind(
        |rpm: Option<u32>|
            match rpm {
                Some(v) if v != 0 => judging_pump(b, fan, v).bind(
                    |is_pump: bool|
                        reading_pwm(b, fan).bind(
                            |pct: Option<u8>|
                                Dialogue::End(
                                    found.push(found_fan(found, fan, v, is_pump, pct)),
                                ),
                        ),
                ),
                _ => Dialogue::End(found),
            },
    )
}

/// Adds the fans from number `fan` on that turn to the ones in `found`.
pub open spec fn scanning_from(
    b: SystemView,
    count: usize,
    found: Seq<FanView>,
    fan: usize,
) -> PortTalk<Seq<FanView>>
    decreases count - fan,
{
    if fan < count {
        scanning_fan(b, found, fan).bind(
            |more: Seq<FanView>| scanning_from(b, count, more, (fan + 1) as usize),
        )
    } else {
        Dialogue::End(found)
    }
}

/// Reads all fans of the chip and reports the ones that turn.
pub open spec fn scanning(b: SystemView) -> PortTalk<Seq<FanView>> {
    match b.chip {
        None => Dialogue::End(seq![]),
        Some(chip) => scanning_from(b, chip.fan_count, seq![], 0),
    }
}

/// Whether a fan's control mode is still to be saved before the fan is switched to manual
/// control.
pub open spec fn mode_unsaved(chip: SuperIoChip, saved: Map<usize, u8>, fan: usize) -> bool {
    chip.family == ChipFamily::Nuvoton && chip.modern && !saved.contains_key(fan)
}

/// Reads a fan's control mode if it is still to be saved, and ends with the saved modes.
pub open spec fn saving_mode(chip: SuperIoChip, saved: Map<usize, u8>, fan: usize) -> PortTalk<
    Map<usize, u8>,
> {
    if mode_unsaved(chip, saved, fan) {
        nuvoton::reading_ctrl_mode(chip.iobase, fan).bind(
            |mode: Option<u8>|
                Dialogue::End(
                    match mode {
                        Some(m) => saved.insert(fan, m),
                        None => saved,
                    },
                ),
        )
    } else {
        Dialogue::End(saved)
    }
}

/// The chip that a request for a fan goes to, and the fan's number.
pub open spec fn target(b: SystemView, id: Seq<char>) -> Result<(SuperIoChip, usize), SystemError> {
    match fan_number(id) {
        Err(e) => Err(e),
        Ok(fan) => if !b.ring0 {
            Err(SystemError::NoDriver)
        } else {
            match b.chip {
                None => Err(SystemError::NoChip),
                Some(chip) => Ok((chip, fan)),
            }
        },
    }
}

/// Sets a fan by `setting` after its mode was saved by `saving`. Ends with what is returned and
/// the saved modes.
pub open spec fn saving_first(
    saving: PortTalk<Map<usize, u8>>,
    setting: PortTalk<()>,
) -> PortTalk<(Result<(), SystemError>, Map<usize, u8>)> {
    saving.bind(
        |saved: Map<usize, u8>| setting.followed_by(Dialogue::End((Ok(()), saved))),
    )
}

/// Sets a fan to `pct` percent, at least 20. Ends with what is returned and the saved modes.
pub open spec fn setting_speed(b: SystemView, id: Seq<char>, pct: u8) -> PortTalk<
    (Result<(), SystemError>, Map<usize, u8>),
> {
    match target(b, id) {
        Err(e) => Dialogue::End((Err(e), b.saved_modes)),
        Ok((chip, fan)) => saving_first(
            saving_mode(chip, b.saved_modes, fan),
            setting_chip_pwm(chip, fan, at_least(pct, 20)),
        ),
    }
}

/// Hands a fan back to automatic control. Ends with what is returned and the saved modes.
pub open spec fn resetting(b: SystemView, id: Seq<char>) -> PortTalk<
    (Result<(), SystemError>, Map<usize, u8>),
> {
    match target(b, id) {
        Err(e) => Dialogue::End((Err(e), b.saved_modes)),
        Ok((chip, fan)) => resetting_chip_pwm(
            chip,
            fan,
            if b.saved_modes.contains_key(fan) {
                Some(b.saved_modes[fan])
            } else {
                None
            },
        ).followed_by(Dialogue::End((Ok(()), b.saved_modes.remove(fan)))),
    }
}

/// What a diagnosis reads of one fan.
#[derive(Clone, Copy, PartialEq, Eq, Structural, Debug)]
pub struct FanReading {
    pub rpm: Option<u32>,
    pub pwm: Option<u8>,
}

/// What there is to be seen of the motherboard's fan hardware.
pub struct Diagnosis {
    /// The identification at the first configuration port, and without the revision.
    pub id_1: u16,
    pub family_1: u16,
    /// The identification at the second configuration port, and without the revision.
    pub id_2: u16,
    pub family_2: u16,
    /// The chip that was found.
    pub chip: Option<SuperIoChip>,
    /// What the chip shows of each of its fans.
    pub fans: Vec<FanReading>,
}

/// The contents of a [`Diagnosis`].
pub struct DiagnosisView {
    pub id_1: u16,
    pub family_1: u16,
    pub id_2: u16,
    pub family_2: u16,
    pub chip: Option<SuperIoChip>,
    pub fans: Seq<FanReading>,
}

impl View for Diagnosis {
    type V = DiagnosisView;

    open spec fn view(&self) -> DiagnosisView {
        DiagnosisView {
            id_1: self.id_1,
            family_1: self.family_1,
            id_2: self.id_2,
            family_2: self.family_2,
            chip: self.chip,
            fans: self.fans@,
        }
    }
}

/// Reads speed and duty cycle of the fans from number `fan` on, after the ones in `read`.
pub open spec fn reading_fans_from(
    b: SystemView,
    count: usize,
    read: Seq<FanReading>,
    fan: usize,
) -> PortTalk<Seq<FanReading>>
    decreases count - fan,
{
    if fan < count {
        reading_rpm(b, fan).bind(
            |rpm: Option<u32>|
                reading_pwm(b, fan).bind(
                    |pwm: Option<u8>|
                        reading_fans_from(
                            b,
                            count,
                            read.push(FanReading { rpm, pwm }),
                            (fan + 1) as usize,
                        ),
                ),
        )
    } else {
        Dialogue::End(read)
    }
}

/// Reads all fans of a chip; there are none without a chip.
pub open spec fn reading_fans(chip: Option<SuperIoChip>) -> PortTalk<Seq<FanReading>> {
    match chip {
        None => Dialogue::End(seq![]),
        Some(c) => reading_fans_from(
            SystemView { ring0: true, chip, saved_modes: Map::empty() },
            c.fan_count,
            seq![],
            0,
        ),
    }
}

/// Reads the identifications at both ports, looks for a chip, and reads all of its fans.
pub open spec fn diagnosing() -> PortTalk<DiagnosisView> {
    reading_raw_id(SIO_PORT_1).bind(
        |id_1: u16|
            reading_raw_id(SIO_PORT_2).bind(
                |id_2: u16|
                    detecting().bind(
                        |chip: Option<SuperIoChip>|
                            reading_fans(chip).bind(
                                |fans: Seq<FanReading>|
                                    Dialogue::End(
                                        DiagnosisView {
                                            id_1,
                                            family_1: family_id(id_1),
                                            id_2,
                                            family_2: family_id(id_2),
                                            chip,
                                            fans,
                                        },
                                    ),
                            ),
                    ),
            ),
    )
}

/// Looks at the motherboard's fan hardware in every detail, on a driver that is open. Reports
/// the identification at each port even where the chip is not supported.
pub fn run_diagnostics(r: &mut Ports) -> (out: Result<Diagnosis, PortOp>)
    ensures
        ran(
            diagnosing(),
            old(r).remaining(),
            final(r).remaining(),
            match out {
                Ok(diagnosis) => Ok(diagnosis@),
                Err(op) => Err(op),
            },
        ),
{
    broadcast use vstd::std_specs::hash::group_hash_axioms;

    let id_1: u16 = SuperIoChip::read_raw_id(r, SIO_PORT_1)?;
    let id_2: u16 = SuperIoChip::read_raw_id(r, SIO_PORT_2)?;
    let chip = SuperIoChip::detect(r)?;
    let mut fans: Vec<FanReading> = Vec::new();
    let ghost before = r.remaining();
    if let Some(c) = chip {
        let b = SystemFanBackend { ring0: true, chip, saved_modes: HashMap::new() };
        assert(b@.saved_modes =~= Map::empty());
        let mut i: usize = 0;
        while i < c.fan_count
            invariant
                i <= c.fan_count,
                chip == Some(c),
                b@ == (SystemView { ring0: true, chip, saved_modes: Map::empty() }),
                replay(diagnosing(), old(r).remaining()) == replay(
                    reading_fans(chip).bind(
                        |read: Seq<FanReading>|
                            Dialogue::End(
                                DiagnosisView {
                                    id_1,
                                    family_1: family_id(id_1),
                                    id_2,
                                    family_2: family_id(id_2),
                                    chip,
                                    fans: read,
                                },
                            ),
                    ),
                    before,
                ),
                replay(reading_fans(chip), before) == replay(
                    reading_fans_from(b@, c.fan_count, fans@, i),
                    r.remaining(),
                ),
            decreases c.fan_count - i,
        {
            let rpm = b.read_rpm(r, i)?;
            let pwm = b.read_pwm(r, i)?;
            fans.push(FanReading { rpm, pwm });
            i = i + 1;
        }
    }
    Ok(
        Diagnosis {
            id_1,
            family_1: family_of(id_1),
            id_2,
            family_2: family_of(id_2),
            chip,
            fans,
        },
    )
}

fn number_of(fan_id: &str) -> (out: Result<usize, SystemError>)
    ensures
        out == fan_number(fan_id@),
{
    let id = chars_of(fan_id);
    let prefix = chars_of("sio:");
    if !begins(&id, &prefix) {
        return Err(SystemError::NotSuperIo);
    }
    match parse_usize(&strip_prefix(&id, &prefix)) {
        Some(fan) => Ok(fan),
        None => Err(SystemError::BadNumber),
    }
}

impl SystemError {
    /// The error in words; there are none for a number that cannot be read, which is for the
    /// number's reader to explain.
    pub fn message(&self) -> (out: Option<&'static str>)
        ensures
            match *self {
                SystemError::NotSuperIo => out matches Some(text) && text@
                    == "not a superio fan"@,
                SystemError::BadNumber => out is None,
                SystemError::NoDriver => out matches Some(text) && text@
                    == "WinRing0 driver not available"@,
                SystemError::NoChip => out matches Some(text) && text@
                    == "No SuperIO chip detected"@,
            },
    {
        match self {
            SystemError::NotSuperIo => Some("not a superio fan"),
            SystemError::BadNumber => None,
            SystemError::NoDriver => Some("WinRing0 driver not available"),
            SystemError::NoChip => Some("No SuperIO chip detected"),
        }
    }
}

impl SystemFanBackend {
    /// Finds the chip, if the driver for port access is open.
    pub fn new(driver_open: bool, r: &mut Ports) -> (out: Result<Self, PortOp>)
        ensures
            ran(
                opening(driver_open),
                old(r).remaining(),
                final(r).remaining(),
                match out {
                    Ok(b) => Ok(b@),
                    Err(op) => Err(op),
                },
            ),
    {
        broadcast use vstd::std_specs::hash::group_hash_axioms;

        let chip = if driver_open {
            SuperIoChip::detect(r)?
        } else {
            None
        };
        let b = SystemFanBackend { ring0: driver_open, chip, saved_modes: HashMap::new() };
        assert(b@.saved_modes =~= Map::empty());
        Ok(b)
    }

    /// Whether a chip was found; if not, another backend has to report the fans.
    pub fn has_chip(&self) -> (out: bool)
        ensures
            out == (self@.chip is Some),
    {
        self.chip.is_some()
    }

    /// The backend's name.
    pub fn name(&self) -> (out: &'static str)
        ensures
            out@ == "superio"@,
    {
        "superio"
    }

    /// The identifier of fan number `fan`.
    pub fn fan_id(fan: usize) -> (out: String)
        ensures
            out@ == fan_id_of(fan),
    {
        numbered("sio:", fan as u64)
    }

    /// A label of fan number `fan` that names the chip.
    pub fn fan_label(&self, fan: usize) -> (out: String)
        ensures
            out@ == (match self@.chip {
                Some(chip) => chip.chip_name@,
                None => "Unknown"@,
            }) + " Fan "@ + digits(fan.wrapping_add(1) as nat),
    {
        let mut out = String::new();
        match self.chip {
            Some(chip) => out.append(chip.chip_name),
            None => out.append("Unknown"),
        }
        out.append(" Fan ");
        push_number(&mut out, fan.wrapping_add(1) as u64);
        assert(out@ =~= (match self@.chip {
            Some(chip) => chip.chip_name@,
            None => "Unknown"@,
        }) + " Fan "@ + digits(fan.wrapping_add(1) as nat));
        out
    }

    /// Speed of fan number `fan`.
    pub fn read_rpm(&self, r: &mut Ports, fan: usize) -> (out: Result<Option<u32>, PortOp>)
        ensures
            ran(reading_rpm(self@, fan), old(r).remaining(), final(r).remaining(), out),
    {
        if !self.ring0 {
            return Ok(None);
        }
        match self.chip {
            None => Ok(None),
            Some(c) => match c.family {
                ChipFamily::Nuvoton => Nuvoton::read_rpm(r, c.iobase, fan, c.modern),
                ChipFamily::Nct6687 => Nct6687::read_rpm(r, c.iobase, fan),
                ChipFamily::Ite => Ite::read_rpm(r, c.iobase, fan),
                ChipFamily::Fintek => Fintek::read_rpm(r, c.iobase, fan),
            },
        }
    }

    /// Duty cycle of fan number `fan` in percent.
    pub fn read_pwm(&self, r: &mut Ports, fan: usize) -> (out: Result<Option<u8>, PortOp>)
        ensures
            ran(reading_pwm(self@, fan), old(r).remaining(), final(r).remaining(), out),
    {
        if !self.ring0 {
            return Ok(None);
        }
        match self.chip {
            None => Ok(None),
            Some(c) => match c.family {
                ChipFamily::Nuvoton => Nuvoton::read_pwm(r, c.iobase, fan, c.modern),
                ChipFamily::Nct6687 => Nct6687::read_pwm(r, c.iobase, fan),
                ChipFamily::Ite => Ite::read_pwm(r, c.iobase, fan),
                ChipFamily::Fintek => Fintek::read_pwm(r, c.iobase, fan),
            },
        }
    }

    /// All fans that turn. A fan that turns very fast at nearly full duty cycle is taken for a
    /// pump.
    pub fn scan(&self, r: &mut Ports) -> (out: Result<Vec<FanInfo>, PortOp>)
        ensures
            ran(
                scanning(self@),
                old(r).remaining(),
                final(r).remaining(),
                match out {
                    Ok(fans) => Ok(fan_views(fans@)),
                    Err(op) => Err(op),
                },
            ),
    {
        let mut fans: Vec<FanInfo> = Vec::new();
        assert(fan_views(fans@) =~= seq![]);
        let chip = match self.chip {
            Some(chip) => chip,
            None => return Ok(fans),
        };
        let mut pump_num: usize = 0;
        let mut i: usize = 0;
        while i < chip.fan_count
            invariant
                i <= chip.fan_count,
                self@.chip == Some(chip),
                replay(scanning(self@), old(r).remaining()) == replay(
                    scanning_from(self@, chip.fan_count, fan_views(fans@), i),
                    r.remaining(),
                ),
                fans@.len() <= i,
                pump_num == pumps(fan_views(fans@)),
            decreases chip.fan_count - i,
        {
            let ghost found = fan_views(fans@);
            proof {
                lemma_pumps_among_fans(found);
            }
            if let Some(fan) = self.scan_fan(r, i, Ghost(found), fans.len() - pump_num, pump_num)? {
                if fan.is_pump {
                    pump_num = pump_num + 1;
                }
                fans.push(fan);
                assert(fan_views(fans@) =~= found.push(fan@));
                assert(fan_views(fans@).drop_last() =~= found);
            }
            i = i + 1;
        }
        Ok(fans)
    }

    /// Fan number `i` if it turns, labelled after `fan_num` other fans and `pump_num` pumps.
    fn scan_fan(
        &self,
        r: &mut Ports,
        i: usize,
        Ghost(found): Ghost<Seq<FanView>>,
        fan_num: usize,
        pump_num: usize,
    ) -> (out: Result<Option<FanInfo>, PortOp>)
        requires
            fan_num < usize::MAX,
            pump_num < usize::MAX,
            pump_num == pumps(found),
            fan_num + pump_num == found.len(),
        ensures
            ran(
                scanning_fan(self@, found, i),
                old(r).remaining(),
                final(r).remaining(),
                match out {
                    Ok(Some(fan)) => Ok(found.push(fan@)),
                    Ok(None) => Ok(found),
                    Err(op) => Err(op),
                },
            ),
    {
        let rpm: u32 = match self.read_rpm(r, i)? {
            Some(rpm) => rpm,
            None => 0,
        };
        if rpm == 0 {
            return Ok(None);
        }
        let is_pump = if rpm > 2500 {
            match self.read_pwm(r, i)? {
                Some(pct) => pct > 90,
                None => false,
            }
        } else {
            false
        };
        let label = if is_pump {
            numbered("Pump ", pump_num as u64 + 1)
        } else {
            numbered("Fan ", fan_num as u64 + 1)
        };
        let speed_pct = self.read_pwm(r, i)?;
        let fan = FanInfo {
            id: Self::fan_id(i),
            label,
            fan_type: FanType::System,
            mode: FanMode::Auto,
            rpm: Some(rpm),
            speed_pct,
            temperature: None,
            rpm_min: Some(0),
            rpm_max: None,
            controllable: true,
            is_pump,
        };
        assert(fan@ == found_fan(found, i, rpm, is_pump, speed_pct));
        Ok(Some(fan))
    }

    /// Sets a fan to `pct` percent, at least 20. Before the first time, the control mode is
    /// saved where the chip has one to restore.
    pub fn set_speed_pct(&mut self, r: &mut Ports, fan_id: &str, pct: u8) -> (out: Result<
        Result<(), SystemError>,
        PortOp,
    >)
        ensures
            ran(
                setting_speed(old(self)@, fan_id@, pct),
                old(r).remaining(),
                final(r).remaining(),
                match out {
                    Ok(res) => Ok((res, final(self)@.saved_modes)),
                    Err(op) => Err(op),
                },
            ),
            final(self)@.ring0 == old(self)@.ring0,
            final(self)@.chip == old(self)@.chip,
            out is Err ==> final(self)@ == old(self)@,
    {
        broadcast use vstd::std_specs::hash::group_hash_axioms;

        let fan: usize = match number_of(fan_id) {
            Ok(fan) => fan,
            Err(e) => return Ok(Err(e)),
        };
        if !self.ring0 {
            return Ok(Err(SystemError::NoDriver));
        }
        let c = match self.chip {
            Some(c) => c,
            None => return Ok(Err(SystemError::NoChip)),
        };
        let pct: u8 = floored(pct, 20);
        let saved = if c.family == ChipFamily::Nuvoton && c.modern
            && !self.saved_modes.contains_key(&fan) {
            Nuvoton::read_ctrl_mode(r, c.iobase, fan)?
        } else {
            None
        };
        match c.family {
            ChipFamily::Nuvoton => Nuvoton::set_pwm(r, c.iobase, fan, pct, c.modern)?,
            ChipFamily::Nct6687 => Nct6687::set_pwm(r, c.iobase, fan, pct)?,
            ChipFamily::Ite => Ite::set_pwm(r, c.iobase, fan, pct)?,
            ChipFamily::Fintek => Fintek::set_pwm(r, c.iobase, fan, pct)?,
        }
        if let Some(mode) = saved {
            self.saved_modes.insert(fan, mode);
        }
        Ok(Ok(()))
    }

    /// Hands a fan back to automatic control, in the mode that was saved if there is one.
    pub fn reset_to_auto(&mut self, r: &mut Ports, fan_id: &str) -> (out: Result<
        Result<(), SystemError>,
        PortOp,
    >)
        ensures
            ran(
                resetting(old(self)@, fan_id@),
                old(r).remaining(),
                final(r).remaining(),
                match out {
                    Ok(res) => Ok((res, final(self)@.saved_modes)),
                    Err(op) => Err(op),
                },
            ),
            final(self)@.ring0 == old(self)@.ring0,
            final(self)@.chip == old(self)@.chip,
            out is Err ==> final(self)@ == old(self)@,
    {
        broadcast use vstd::std_specs::hash::group_hash_axioms;

        let fan: usize = match number_of(fan_id) {
            Ok(fan) => fan,
            Err(e) => return Ok(Err(e)),
        };
        if !self.ring0 {
            return Ok(Err(SystemError::NoDriver));
        }
        let c = match self.chip {
            Some(c) => c,
            None => return Ok(Err(SystemError::NoChip)),
        };
        let restore: Option<u8> = match self.saved_modes.get(&fan) {
            Some(mode) => Some(*mode),
            None => None,
        };
        match c.family {
            ChipFamily::Nuvoton => Nuvoton::reset_pwm(r, c.iobase, fan, c.modern, restore)?,
            ChipFamily::Nct6687 => Nct6687::reset_pwm(r, c.iobase, fan)?,
            ChipFamily::Ite => Ite::reset_pwm(r, c.iobase, fan)?,
            ChipFamily::Fintek => Fintek::reset_pwm(r, c.iobase, fan)?,
        }
        self.saved_modes.remove(&fan);
        Ok(Ok(()))
    }
}

} // verus!
