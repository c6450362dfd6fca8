use std::collections::HashMap;

use fancontroller::fan::{FanInfo, FanMode, FanType};
use fancontroller::ports::{PortOp, Ports};
use fancontroller::superio::{family_of, ChipFamily, SuperIoChip};
use fancontroller::system::{run_diagnostics, FanReading, SystemError, SystemFanBackend};

fn run<T>(
    mut operation: impl FnMut(&mut Ports) -> Result<T, PortOp>,
    mut device: impl FnMut(PortOp) -> Option<u8>,
) -> (T, Vec<PortOp>) {
    let mut replies = Vec::new();
    let mut made = Vec::new();
    loop {
        match operation(&mut Ports::new(replies.clone())) {
            Ok(value) => return (value, made),
            Err(op) => {
                made.push(op);
                replies.push(device(op));
            }
        }
    }
}

/// A motherboard with one chip. Registers of the hardware monitor are kept by bank or page.
struct Board {
    port: u16,
    ite: bool,
    id: u16,
    bases: HashMap<u8, u16>,
    open: bool,
    heard: Vec<u8>,
    config: u8,
    ldn: u8,
    page: u8,
    index: u8,
    bank: u8,
    values: HashMap<(u8, u8), u8>,
}

fn board(port: u16, ite: bool, id: u16, ldn: u8, base: u16) -> Board {
    Board {
        port,
        ite,
        id,
        bases: HashMap::from([(ldn, base)]),
        open: false,
        heard: Vec::new(),
        config: 0,
        ldn: 0,
        page: 0,
        index: 0,
        bank: 0,
        values: HashMap::new(),
    }
}

impl Board {
    fn key(&self) -> Vec<u8> {
        if self.ite {
            vec![0x87, 0x01, 0x55, if self.port == 0x2E { 0x55 } else { 0xAA }]
        } else {
            vec![0x87, 0x87]
        }
    }

    fn answer(&mut self, op: PortOp) -> Option<u8> {
        match op {
            PortOp::Write { port, value } if port == self.port => {
                if !self.open {
                    self.heard.push(value);
                    self.open = self.heard.ends_with(&self.key());
                } else if !self.ite && value == 0xAA {
                    self.open = false;
                    self.heard.clear();
                } else {
                    self.config = value;
                }
                None
            }
            PortOp::Write { port, value } if port == self.port + 1 => {
                if self.open && self.config == 0x07 {
                    self.ldn = value;
                } else if self.open && self.ite && self.config == 0x02 && value & 2 != 0 {
                    self.open = false;
                    self.heard.clear();
                }
                None
            }
            PortOp::Read { port } if port == self.port + 1 && self.open => {
                let base = *self.bases.get(&self.ldn).unwrap_or(&0);
                Some(match self.config {
                    0x20 => (self.id >> 8) as u8,
                    0x21 => self.id as u8,
                    0x60 => (base >> 8) as u8,
                    0x61 => base as u8,
                    _ => 0,
                })
            }
            PortOp::Write { port: 0x294, value } => {
                self.page = value;
                None
            }
            PortOp::Write { port: 0x295, value } => {
                self.index = value;
                None
            }
            PortOp::Write { port: 0x296, value } if self.index == 0x4E => {
                self.bank = value;
                None
            }
            PortOp::Write { port: 0x296, value } => {
                self.values.insert((self.page.max(self.bank), self.index), value);
                None
            }
            PortOp::Read { port: 0x296 } => {
                Some(*self.values.get(&(self.page.max(self.bank), self.index)).unwrap_or(&0))
            }
            PortOp::Read { .. } => Some(0xFF),
            PortOp::Write { .. } => None,
        }
    }

    fn set(&mut self, address: u16, value: u8) {
        self.values.insert(((address >> 8) as u8, address as u8), value);
    }

    fn get(&self, address: u16) -> Option<u8> {
        self.values.get(&((address >> 8) as u8, address as u8)).copied()
    }
}

fn detect(board: &mut Board) -> Option<SuperIoChip> {
    run(SuperIoChip::detect, |op| board.answer(op)).0
}

fn opened(board: &mut Board) -> SystemFanBackend {
    run(|r| SystemFanBackend::new(true, r), |op| board.answer(op)).0
}

fn scanned(backend: &SystemFanBackend, board: &mut Board) -> Vec<FanInfo> {
    run(|r| backend.scan(r), |op| board.answer(op)).0
}

#[test]
fn nuvoton_chips_are_found() {
    let models: [(u16, &str, usize, bool); 13] = [
        (0xB470, "NCT6775F", 5, false),
        (0xC330, "NCT6776F", 5, false),
        (0xC560, "NCT6779D", 5, true),
        (0xC800, "NCT6791D", 6, true),
        (0xC910, "NCT6792D", 6, true),
        (0xD120, "NCT6793D", 6, true),
        (0xD350, "NCT6795D", 6, true),
        (0xD420, "NCT6796D/6798D", 7, true),
        (0xD450, "NCT6797D", 7, true),
        (0xA020, "W83627DHG", 3, false),
        (0x8800, "W83627EHF", 5, false),
        (0xA510, "W83667HG", 5, false),
        (0xB350, "W83677HG", 5, false),
    ];
    for (family, name, fans, modern) in models {
        for (port, revision) in [(0x2E, 0x0B), (0x4E, 0x00)] {
            let mut b = board(port, false, family + revision, 0x0B, 0x290);
            let chip = detect(&mut b).unwrap();
            assert_eq!(chip.family, ChipFamily::Nuvoton);
            assert_eq!(
                (chip.chip_id, chip.chip_name, chip.sio_port, chip.iobase),
                (family + revision, name, port, 0x290)
            );
            assert_eq!((chip.fan_count, chip.modern), (fans, modern));
            assert!(!b.open);
        }
    }
}

#[test]
fn nct6687_is_found_by_any_revision() {
    for id in [0xD590, 0xD592, 0xD59F] {
        let chip = detect(&mut board(0x4E, false, id, 0x0B, 0xA20)).unwrap();
        assert_eq!((chip.family, chip.chip_name), (ChipFamily::Nct6687, "NCT6687D"));
        assert_eq!((chip.fan_count, chip.modern, chip.iobase), (8, true, 0xA20));
    }
}

#[test]
fn ite_chips_are_found() {
    let models = [
        (0x8620, "IT8620E"),
        (0x8628, "IT8628E"),
        (0x8665, "IT8665E"),
        (0x8686, "IT8686E"),
        (0x8688, "IT8688E"),
        (0x8783, "IT8783E"),
        (0x8790, "IT8790E"),
        (0x8792, "IT8792E"),
        (0x8795, "IT8795E"),
    ];
    for (id, name) in models {
        for port in [0x2E, 0x4E] {
            let mut b = board(port, true, id, 0x04, 0x290);
            let chip = detect(&mut b).unwrap();
            assert_eq!((chip.family, chip.chip_name), (ChipFamily::Ite, name));
            assert_eq!((chip.fan_count, chip.modern, chip.sio_port), (5, false, port));
            assert!(!b.open);
        }
    }
    assert!(detect(&mut board(0x2E, true, 0x8621, 0x04, 0x290)).is_none());
}

#[test]
fn fintek_chips_are_found() {
    let models = [
        (0x0504, "F71808E"),
        (0x0507, "F71858"),
        (0x0601, "F71869A"),
        (0x0814, "F71869"),
        (0x0541, "F71882FG"),
        (0x0723, "F71889FG"),
    ];
    for (id, name) in models {
        let mut b = board(0x4E, false, id, 0x04, 0x290);
        let chip = detect(&mut b).unwrap();
        assert_eq!((chip.family, chip.chip_name), (ChipFamily::Fintek, name));
        assert_eq!((chip.fan_count, chip.modern), (3, false));
        assert!(!b.open);
    }
}

#[test]
fn unsupported_or_unusable_chips_are_not_found() {
    assert!(detect(&mut board(0x2E, false, 0x1234, 0x0B, 0x290)).is_none());
    assert!(detect(&mut board(0x2E, false, 0xD42B, 0x0B, 0x0FF)).is_none());
    assert!(detect(&mut board(0x2E, false, 0xD592, 0x0B, 0x0FF)).is_none());
    assert!(detect(&mut board(0x2E, false, 0xD42B, 0x04, 0x290)).is_none());
    assert!(detect(&mut board(0x2E, true, 0x8628, 0x04, 0x0FF)).is_none());
    assert!(detect(&mut board(0x2E, false, 0x0504, 0x04, 0x0FF)).is_none());
    assert!(detect(&mut board(0x2E, false, 0xD42B, 0x0B, 0x100)).is_some());
    assert!(run(SuperIoChip::detect, |_| None).0.is_none());
}

#[test]
fn raw_identification_and_family() {
    let mut b = board(0x2E, false, 0x1234, 0x0B, 0x290);
    let (id, made) = run(|r| SuperIoChip::read_raw_id(r, 0x2E), |op| b.answer(op));
    assert_eq!(id, 0x1234);
    assert_eq!(
        made,
        vec![
            PortOp::Write { port: 0x2E, value: 0x87 },
            PortOp::Write { port: 0x2E, value: 0x87 },
            PortOp::Write { port: 0x2E, value: 0x20 },
            PortOp::Read { port: 0x2F },
            PortOp::Write { port: 0x2E, value: 0x21 },
            PortOp::Read { port: 0x2F },
            PortOp::Write { port: 0x2E, value: 0xAA },
        ]
    );
    assert_eq!(run(|r| SuperIoChip::sio_read_id(r, 0x2E), |_| None).0, 0);
    assert_eq!((family_of(0xD42B), family_of(0xD420), family_of(0x000F)), (0xD420, 0xD420, 0));
}

#[test]
fn the_base_port_is_that_of_the_logical_device() {
    let mut b = board(0x2E, false, 0xD42B, 0x0B, 0x295);
    b.open = true;
    let (base, made) = run(|r| SuperIoChip::sio_get_iobase(r, 0x2E, 0x0B), |op| b.answer(op));
    assert_eq!(base, 0x295);
    assert_eq!(
        &made[..4],
        &[
            PortOp::Write { port: 0x2E, value: 0x07 },
            PortOp::Write { port: 0x2F, value: 0x0B },
            PortOp::Write { port: 0x2E, value: 0x30 },
            PortOp::Write { port: 0x2F, value: 0x01 },
        ]
    );
}

#[test]
fn probes_look_for_one_maker() {
    let mut b = board(0x2E, false, 0xD42B, 0x0B, 0x290);
    assert!(run(|r| SuperIoChip::probe_ite(r, 0x2E), |op| b.answer(op)).0.is_none());
    assert!(run(|r| SuperIoChip::probe_fintek(r, 0x2E), |op| b.answer(op)).0.is_none());
    assert!(run(|r| SuperIoChip::probe_nuvoton(r, 0x4E), |op| b.answer(op)).0.is_none());
    assert!(run(|r| SuperIoChip::probe_nuvoton(r, 0x2E), |op| b.answer(op)).0.is_some());
    assert!(run(|r| SuperIoChip::detect_at(r, 0x4E), |op| b.answer(op)).0.is_none());
}

#[test]
fn without_the_driver_nothing_is_asked() {
    let (mut backend, made) = run(|r| SystemFanBackend::new(false, r), |_| Some(0));
    assert!(made.is_empty());
    assert!(!backend.has_chip());
    assert_eq!(backend.name(), "superio");
    assert!(run(|r| backend.scan(r), |_| Some(0)).0.is_empty());
    assert_eq!(backend.read_rpm(&mut Ports::new(vec![]), 0), Ok(None));
    assert_eq!(backend.read_pwm(&mut Ports::new(vec![]), 0), Ok(None));
    let mut none = Ports::new(vec![]);
    assert_eq!(backend.set_speed_pct(&mut none, "sio:0", 50), Ok(Err(SystemError::NoDriver)));
    assert_eq!(backend.reset_to_auto(&mut none, "sio:0"), Ok(Err(SystemError::NoDriver)));
}

#[test]
fn fans_need_a_chip() {
    let (mut backend, _) = run(|r| SystemFanBackend::new(true, r), |_| None);
    assert!(!backend.has_chip());
    let mut none = Ports::new(vec![]);
    assert_eq!(backend.set_speed_pct(&mut none, "sio:0", 50), Ok(Err(SystemError::NoChip)));
    assert_eq!(backend.reset_to_auto(&mut none, "sio:0"), Ok(Err(SystemError::NoChip)));
    assert_eq!(backend.fan_label(0), "Unknown Fan 1");
}

#[test]
fn identifiers_are_checked_first() {
    let (mut backend, _) = run(|r| SystemFanBackend::new(false, r), |_| None);
    let mut none = Ports::new(vec![]);
    for id in ["", "sio", "amd:0", "nvidia:0:0", "Sio:1"] {
        assert_eq!(backend.set_speed_pct(&mut none, id, 50), Ok(Err(SystemError::NotSuperIo)));
        assert_eq!(backend.reset_to_auto(&mut none, id), Ok(Err(SystemError::NotSuperIo)));
    }
    for id in ["sio:", "sio:-1", "sio:1a", "sio: 1", "sio:99999999999999999999999"] {
        assert_eq!(backend.set_speed_pct(&mut none, id, 50), Ok(Err(SystemError::BadNumber)));
        assert_eq!(backend.reset_to_auto(&mut none, id), Ok(Err(SystemError::BadNumber)));
    }
    for id in ["sio:0", "sio:+3", "sio:sio:2", "sio:007"] {
        assert_eq!(backend.set_speed_pct(&mut none, id, 50), Ok(Err(SystemError::NoDriver)));
    }
}

#[test]
fn system_errors_in_words() {
    assert_eq!(SystemError::NotSuperIo.message(), Some("not a superio fan"));
    assert_eq!(SystemError::BadNumber.message(), None);
    assert_eq!(SystemError::NoDriver.message(), Some("WinRing0 driver not available"));
    assert_eq!(SystemError::NoChip.message(), Some("No SuperIO chip detected"));
}

#[test]
fn fan_names() {
    assert_eq!(SystemFanBackend::fan_id(0), "sio:0");
    assert_eq!(SystemFanBackend::fan_id(1234567890), "sio:1234567890");
    let mut b = board(0x2E, false, 0xD42B, 0x0B, 0x290);
    assert_eq!(opened(&mut b).fan_label(6), "NCT6796D/6798D Fan 7");
}

#[test]
fn scan_lists_fans_that_turn() {
    let mut b = board(0x2E, false, 0xD42B, 0x0B, 0x290);
    // Counts of 1285 (1050 rpm), of 500 (2700 rpm), and of 540 (2500 rpm).
    for (address, count) in [(0x4B2, 1285u16), (0x4B6, 500), (0x4B8, 500), (0x4BA, 540)] {
        b.set(address, (count / 32) as u8);
        b.set(address + 1, (count % 32) as u8);
    }
    b.set(0x003, 128);
    b.set(0x013, 255);
    b.set(0x015, 230);
    b.set(0xA09, 255);
    let backend = opened(&mut b);
    let fans = scanned(&backend, &mut b);
    let seen: Vec<_> = fans
        .iter()
        .map(|f| (f.id.as_str(), f.label.as_str(), f.rpm, f.speed_pct, f.is_pump))
        .collect();
    assert_eq!(
        seen,
        vec![
            ("sio:1", "Fan 1", Some(1050), Some(50), false),
            ("sio:3", "Pump 1", Some(2700), Some(100), true),
            ("sio:4", "Fan 2", Some(2700), Some(90), false),
            ("sio:5", "Fan 3", Some(2500), Some(100), false),
        ]
    );
    for f in &fans {
        assert_eq!((f.fan_type, f.mode), (FanType::System, FanMode::Auto));
        assert_eq!((f.rpm_min, f.rpm_max, f.controllable), (Some(0), None, true));
        assert!(f.temperature.is_none());
    }
    assert_eq!(run(|r| backend.read_rpm(r, 1), |op| b.answer(op)).0, Some(1050));
    assert_eq!(run(|r| backend.read_pwm(r, 1), |op| b.answer(op)).0, Some(50));
}

#[test]
fn control_mode_is_saved_once_and_restored() {
    let mut b = board(0x2E, false, 0xD42B, 0x0B, 0x290);
    b.set(0x202, 0x45);
    let mut backend = opened(&mut b);
    for pct in [60, 80] {
        let (res, _) = run(|r| backend.set_speed_pct(r, "sio:1", pct), |op| b.answer(op));
        assert_eq!(res, Ok(()));
        assert_eq!(b.get(0x202), Some(0));
    }
    assert_eq!(b.get(0x209), Some(204));
    assert_eq!(run(|r| backend.reset_to_auto(r, "sio:1"), |op| b.answer(op)).0, Ok(()));
    assert_eq!(b.get(0x202), Some(0x45));
    // What was saved is forgotten: the next reset falls back to the usual automatic mode.
    assert_eq!(run(|r| backend.reset_to_auto(r, "sio:1"), |op| b.answer(op)).0, Ok(()));
    assert_eq!(b.get(0x202), Some(4));
}

#[test]
fn saved_modes_belong_to_their_fans() {
    let mut b = board(0x2E, false, 0xD42B, 0x0B, 0x290);
    b.set(0x102, 0x11);
    b.set(0x202, 0x22);
    let mut backend = opened(&mut b);
    for id in ["sio:0", "sio:1"] {
        run(|r| backend.set_speed_pct(r, id, 50), |op| b.answer(op)).0.unwrap();
    }
    run(|r| backend.reset_to_auto(r, "sio:1"), |op| b.answer(op)).0.unwrap();
    assert_eq!((b.get(0x102), b.get(0x202)), (Some(0), Some(0x22)));
    run(|r| backend.reset_to_auto(r, "sio:0"), |op| b.answer(op)).0.unwrap();
    assert_eq!((b.get(0x102), b.get(0x202)), (Some(0x11), Some(0x22)));
}

#[test]
fn speeds_have_a_floor() {
    let mut b = board(0x2E, false, 0xD42B, 0x0B, 0x290);
    let mut backend = opened(&mut b);
    for (pct, raw) in [(0, 51), (19, 51), (20, 51), (21, 53), (100, 255), (255, 255)] {
        run(|r| backend.set_speed_pct(r, "sio:0", pct), |op| b.answer(op)).0.unwrap();
        assert_eq!(b.get(0x109), Some(raw));
    }
}

#[test]
fn a_chip_of_each_kind_is_set_and_reset() {
    let mut b = board(0x2E, false, 0xB470, 0x0B, 0x290);
    let mut backend = opened(&mut b);
    run(|r| backend.set_speed_pct(r, "sio:2", 0), |op| b.answer(op)).0.unwrap();
    assert_eq!((b.get(0x302), b.get(0x309)), (Some(0), Some(51)));
    run(|r| backend.reset_to_auto(r, "sio:2"), |op| b.answer(op)).0.unwrap();
    assert_eq!(b.get(0x302), Some(3));

    let mut b = board(0x2E, false, 0xD592, 0x0B, 0x290);
    let mut backend = opened(&mut b);
    run(|r| backend.set_speed_pct(r, "sio:2", 0), |op| b.answer(op)).0.unwrap();
    assert_eq!((b.get(0x1022), b.get(0x1002)), (Some(0xFF), Some(51)));
    run(|r| backend.reset_to_auto(r, "sio:2"), |op| b.answer(op)).0.unwrap();
    assert_eq!(b.get(0x1022), Some(0));

    let mut b = board(0x2E, true, 0x8628, 0x04, 0x290);
    b.set(0x15, 0xE1);
    let mut backend = opened(&mut b);
    run(|r| backend.set_speed_pct(r, "sio:0", 0), |op| b.answer(op)).0.unwrap();
    assert_eq!((b.get(0x15), b.get(0x6B)), (Some(0xC1), Some(25)));
    run(|r| backend.reset_to_auto(r, "sio:0"), |op| b.answer(op)).0.unwrap();
    assert_eq!(b.get(0x15), Some(0xE1));

    let mut b = board(0x2E, false, 0x0541, 0x04, 0x290);
    b.set(0xA2, 0x17);
    let mut backend = opened(&mut b);
    run(|r| backend.set_speed_pct(r, "sio:0", 0), |op| b.answer(op)).0.unwrap();
    assert_eq!((b.get(0xA2), b.get(0xAA)), (Some(0x15), Some(51)));
    run(|r| backend.reset_to_auto(r, "sio:0"), |op| b.answer(op)).0.unwrap();
    assert_eq!(b.get(0xA2), Some(0x17));
}

#[test]
fn reading_changes_no_register() {
    let boards = [
        board(0x2E, false, 0xD42B, 0x0B, 0x290),
        board(0x2E, false, 0xB470, 0x0B, 0x290),
        board(0x2E, false, 0xD592, 0x0B, 0x290),
        board(0x2E, true, 0x8628, 0x04, 0x290),
        board(0x2E, false, 0x0541, 0x04, 0x290),
    ];
    for mut b in boards {
        for address in [0x0D, 0x18, 0x28, 0x29, 0xA0, 0xA1, 0x4B0, 0x4B1, 0x1400, 0x1401] {
            b.set(address, 1);
        }
        let before = b.values.clone();
        let backend = opened(&mut b);
        assert_eq!(scanned(&backend, &mut b).len(), 1);
        run(run_diagnostics, |op| b.answer(op));
        assert_eq!(b.values, before);
    }
}

#[test]
fn other_fans_keep_their_modes() {
    let modes = [0x102, 0x202, 0x302, 0x802, 0x902, 0xA02, 0xB02];
    let mut b = board(0x2E, false, 0xD42B, 0x0B, 0x290);
    for (i, address) in modes.into_iter().enumerate() {
        b.set(address, 0x10 + i as u8);
    }
    let mut backend = opened(&mut b);
    for pct in [30, 90] {
        run(|r| backend.set_speed_pct(r, "sio:3", pct), |op| b.answer(op)).0.unwrap();
    }
    run(|r| backend.reset_to_auto(r, "sio:3"), |op| b.answer(op)).0.unwrap();
    for (i, address) in modes.into_iter().enumerate() {
        assert_eq!(b.get(address), Some(0x10 + i as u8));
    }

    let mut b = board(0x2E, true, 0x8628, 0x04, 0x290);
    b.set(0x15, 0xE0);
    let mut backend = opened(&mut b);
    run(|r| backend.set_speed_pct(r, "sio:3", 100), |op| b.answer(op)).0.unwrap();
    assert_eq!((b.get(0x15), b.get(0x6E)), (Some(0xE0), Some(127)));
}

#[test]
fn an_unfinished_operation_saves_nothing() {
    let mut b = board(0x2E, false, 0xD42B, 0x0B, 0x290);
    b.set(0x102, 0x33);
    let mut backend = opened(&mut b);
    // The mode has been read, but nothing has been written yet.
    let mut session = Ports::new(vec![None, None, None, Some(0x33)]);
    assert!(backend.set_speed_pct(&mut session, "sio:0", 50).is_err());
    run(|r| backend.reset_to_auto(r, "sio:0"), |op| b.answer(op)).0.unwrap();
    assert_eq!(b.get(0x102), Some(4));
}

#[test]
fn diagnosis_of_a_supported_chip() {
    let mut b = board(0x4E, false, 0xB473, 0x0B, 0x290);
    b.set(0x28, 0x05);
    b.set(0x29, 0xDC);
    b.set(0x109, 255);
    let (diagnosis, _) = run(run_diagnostics, |op| b.answer(op));
    assert_eq!((diagnosis.id_1, diagnosis.family_1), (0xFFFF, 0xFFF0));
    assert_eq!((diagnosis.id_2, diagnosis.family_2), (0xB473, 0xB470));
    assert_eq!(diagnosis.chip.unwrap().chip_name, "NCT6775F");
    assert_eq!(diagnosis.fans.len(), 5);
    assert_eq!(diagnosis.fans[0], FanReading { rpm: Some(900), pwm: Some(100) });
    assert_eq!(diagnosis.fans[4], FanReading { rpm: Some(0), pwm: Some(0) });
}

#[test]
fn diagnosis_of_an_unsupported_chip() {
    let mut b = board(0x2E, false, 0x1234, 0x0B, 0x290);
    let (diagnosis, _) = run(run_diagnostics, |op| b.answer(op));
    assert_eq!((diagnosis.id_1, diagnosis.family_1), (0x1234, 0x1230));
    assert!(diagnosis.chip.is_none());
    assert!(diagnosis.fans.is_empty());
}
