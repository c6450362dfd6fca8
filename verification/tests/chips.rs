use std::collections::HashMap;

use fancontroller::fintek::Fintek;
use fancontroller::ite::Ite;
use fancontroller::nct6687::Nct6687;
use fancontroller::nuvoton::{raw_duty, Nuvoton};
use fancontroller::ports::{control_code, driver_input, PortOp, Ports};

const BASE: u16 = 0x290;

fn read(port: u16) -> PortOp {
    PortOp::Read { port }
}

fn write(port: u16, value: u8) -> PortOp {
    PortOp::Write { port, value }
}

/// Runs an operation on a device; returns its value and the accesses it made.
fn run<T>(
    mut operation: impl FnMut(&mut Ports) -> Result<T, PortOp>,
    mut device: impl FnMut(PortOp) -> Option<u8>,
) -> (T, Vec<PortOp>) {
    let mut replies = Vec::new();
    let mut made = Vec::new();
    loop {
        match operation(&mut Ports::new(replies.clone())) {
            Ok(value) => return (value, made),
            Err(op) => {
                made.push(op);
                replies.push(device(op));
            }
        }
    }
}

/// A device that answers reads from a list.
fn script(mut bytes: Vec<Option<u8>>) -> impl FnMut(PortOp) -> Option<u8> {
    bytes.reverse();
    move |op| match op {
        PortOp::Read { .. } => bytes.pop().unwrap(),
        PortOp::Write { .. } => None,
    }
}

#[derive(Default)]
struct Banked {
    index: u8,
    bank: u8,
    values: HashMap<(u8, u8), u8>,
}

impl Banked {
    fn answer(&mut self, op: PortOp) -> Option<u8> {
        match op {
            PortOp::Write { port: 0x295, value } => self.index = value,
            PortOp::Write { port: 0x296, value } if self.index == 0x4E => self.bank = value,
            PortOp::Write { port: 0x296, value } => {
                self.values.insert((self.bank, self.index), value);
            }
            PortOp::Read { port: 0x296 } => {
                return Some(*self.values.get(&(self.bank, self.index)).unwrap_or(&0));
            }
            _ => panic!("no such port: {op:?}"),
        }
        None
    }
}

#[test]
fn control_codes_of_the_driver() {
    assert_eq!(control_code(read(1)), 0x9C40_60CC);
    assert_eq!(control_code(write(1, 2)), 0x9C40_A0D8);
}

#[test]
fn input_of_the_driver() {
    assert_eq!(driver_input(read(0x2E)), vec![0x2E, 0, 0, 0]);
    assert_eq!(driver_input(read(0x1234)), vec![0x34, 0x12, 0, 0]);
    assert_eq!(driver_input(write(0xFFFF, 0x87)), vec![0xFF, 0xFF, 0, 0, 0x87]);
}

#[test]
fn nuvoton_register_access_selects_the_bank() {
    let (value, made) =
        run(|r| Nuvoton::read_reg(r, BASE, 3, 0x09), script(vec![Some(0x5A)]));
    assert_eq!(value, Some(0x5A));
    assert_eq!(made, vec![write(0x295, 0x4E), write(0x296, 3), write(0x295, 0x09), read(0x296)]);
    let ((), made) = run(|r| Nuvoton::write_addr(r, BASE, 0xA02, 0x04), script(vec![]));
    assert_eq!(
        made,
        vec![write(0x295, 0x4E), write(0x296, 0x0A), write(0x295, 0x02), write(0x296, 0x04)]
    );
}

#[test]
fn nuvoton_modern_speed() {
    let speed = |hi, lo| {
        run(|r| Nuvoton::read_rpm(r, BASE, 0, true), script(vec![Some(hi), Some(lo)])).0
    };
    assert_eq!(speed(40, 5), Some(1050));
    assert_eq!(speed(40, 0xE5), Some(1050));
    assert_eq!(speed(0, 0x15), Some(64285));
    assert_eq!(speed(0, 0x14), Some(0));
    assert_eq!(speed(0xFF, 0x1F), Some(0));
    assert_eq!(speed(0xFF, 0x1E), Some(164));
}

#[test]
fn nuvoton_legacy_speed() {
    let speed = |hi, lo| {
        run(|r| Nuvoton::read_rpm(r, BASE, 1, false), script(vec![Some(hi), Some(lo)]))
    };
    let (rpm, made) = speed(0x05, 0xDC);
    assert_eq!(rpm, Some(900));
    assert_eq!(made[2], write(0x295, 0x2A));
    assert_eq!(made[6], write(0x295, 0x2B));
    assert_eq!(speed(0, 0).0, Some(0));
    assert_eq!(speed(0xFF, 0xFF).0, Some(0));
    assert_eq!(speed(0, 1).0, Some(1_350_000));
}

#[test]
fn nuvoton_legacy_count_has_twelve_bits() {
    let speed = |hi, lo| {
        run(|r| Nuvoton::read_rpm(r, BASE, 0, false), script(vec![Some(hi), Some(lo)])).0
    };
    assert_eq!(speed(0xF5, 0xDC), Some(900));
    assert_eq!(speed(0x0F, 0xFF), Some(329));
    assert_eq!(speed(0x1F, 0xFF), Some(329));
    assert_eq!(speed(0xFF, 0xFF), Some(0));
    assert_eq!(speed(0x0F, 0xFE), Some(329));
    assert_eq!(speed(0xFF, 0xFE), Some(329));
    assert_eq!(speed(0x10, 0x00), Some(0));
    assert_eq!(speed(0x10, 0x02), Some(675_000));
}

#[test]
fn nuvoton_modern_shows_what_was_set() {
    for fan in [5, 6] {
        for pct in 0..=100u8 {
            let mut chip = Banked::default();
            run(|r| Nuvoton::set_pwm(r, BASE, fan, pct, true), |op| chip.answer(op));
            let shown =
                run(|r| Nuvoton::read_pwm(r, BASE, fan, true), |op| chip.answer(op)).0.unwrap();
            assert!(shown == pct || shown + 1 == pct, "{pct} is shown as {shown}");
        }
    }
}

#[test]
fn nuvoton_speed_needs_both_bytes() {
    let (rpm, made) = run(|r| Nuvoton::read_rpm(r, BASE, 0, true), script(vec![None]));
    assert_eq!((rpm, made.len()), (None, 4));
    let (rpm, _) = run(|r| Nuvoton::read_rpm(r, BASE, 0, true), script(vec![Some(1), None]));
    assert_eq!(rpm, None);
}

#[test]
fn nuvoton_modern_addresses() {
    let counts = [0x4B0u16, 0x4B2, 0x4B4, 0x4B6, 0x4B8, 0x4BA, 0x4CC];
    let outputs = [0x001u16, 0x003, 0x011, 0x013, 0x015, 0xA09, 0xB09];
    let commands = [0x109u16, 0x209, 0x309, 0x809, 0x909, 0xA09, 0xB09];
    let modes = [0x102u16, 0x202, 0x302, 0x802, 0x902, 0xA02, 0xB02];
    for fan in 0..7 {
        let at = |made: &Vec<PortOp>, from: usize| match (made[from + 1], made[from + 2]) {
            (PortOp::Write { value: bank, .. }, PortOp::Write { value: reg, .. }) => {
                bank as u16 * 256 + reg as u16
            }
            other => panic!("{other:?}"),
        };
        let pair = || script(vec![Some(1), Some(1)]);
        let (_, made) = run(|r| Nuvoton::read_rpm(r, BASE, fan, true), pair());
        assert_eq!((at(&made, 0), at(&made, 4)), (counts[fan], counts[fan] + 1));
        let (_, made) = run(|r| Nuvoton::read_pwm(r, BASE, fan, true), pair());
        assert_eq!(at(&made, 0), outputs[fan]);
        let (_, made) = run(|r| Nuvoton::read_ctrl_mode(r, BASE, fan), pair());
        assert_eq!(at(&made, 0), modes[fan]);
        let (_, made) = run(|r| Nuvoton::set_pwm(r, BASE, fan, 50, true), pair());
        assert_eq!((at(&made, 0), at(&made, 4)), (modes[fan], commands[fan]));
        assert_eq!((made[3], made[7]), (write(0x296, 0), write(0x296, 127)));
    }
}

#[test]
fn nuvoton_modern_has_no_eighth_fan() {
    let none = || script(vec![]);
    assert_eq!(run(|r| Nuvoton::read_rpm(r, BASE, 7, true), none()), (None, vec![]));
    assert_eq!(run(|r| Nuvoton::read_pwm(r, BASE, 7, true), none()), (None, vec![]));
    assert_eq!(run(|r| Nuvoton::read_ctrl_mode(r, BASE, 7), none()), (None, vec![]));
    assert_eq!(run(|r| Nuvoton::set_pwm(r, BASE, 7, 50, true), none()), ((), vec![]));
    assert_eq!(run(|r| Nuvoton::reset_pwm(r, BASE, 7, true, None), none()), ((), vec![]));
}

#[test]
fn nuvoton_duty_cycle() {
    assert_eq!(raw_duty(0), 0);
    assert_eq!(raw_duty(20), 51);
    assert_eq!(raw_duty(50), 127);
    assert_eq!(raw_duty(100), 255);
    assert_eq!(raw_duty(101), 255);
    assert_eq!(raw_duty(255), 255);
    let shown =
        |raw| run(|r| Nuvoton::read_pwm(r, BASE, 0, false), script(vec![Some(raw)])).0.unwrap();
    assert_eq!((shown(0), shown(127), shown(254), shown(255)), (0, 49, 99, 100));
}

#[test]
fn nuvoton_legacy_shows_what_was_set() {
    for pct in 0..=100u8 {
        let mut chip = Banked::default();
        run(|r| Nuvoton::set_pwm(r, BASE, 2, pct, false), |op| chip.answer(op));
        assert_eq!(chip.values[&(3, 0x02)], 0);
        let shown = run(|r| Nuvoton::read_pwm(r, BASE, 2, false), |op| chip.answer(op)).0.unwrap();
        assert!(shown == pct || shown + 1 == pct, "{pct} is shown as {shown}");
    }
}

#[test]
fn nuvoton_automatic_mode() {
    let mode = |modern, restore| {
        let mut chip = Banked::default();
        run(|r| Nuvoton::reset_pwm(r, BASE, 0, modern, restore), |op| chip.answer(op));
        chip.values
    };
    assert_eq!(mode(true, None), HashMap::from([((1, 2), 4)]));
    assert_eq!(mode(true, Some(0x22)), HashMap::from([((1, 2), 0x22)]));
    assert_eq!(mode(false, None), HashMap::from([((1, 2), 3)]));
    assert_eq!(mode(false, Some(0x22)), HashMap::from([((1, 2), 0x22)]));
}

#[test]
fn nuvoton_control_mode_is_restored() {
    let mut chip = Banked::default();
    chip.values.insert((8, 2), 0x14);
    let mode = run(|r| Nuvoton::read_ctrl_mode(r, BASE, 3), |op| chip.answer(op)).0;
    assert_eq!(mode, Some(0x14));
    run(|r| Nuvoton::set_pwm(r, BASE, 3, 60, true), |op| chip.answer(op));
    assert_eq!(chip.values, HashMap::from([((8, 2), 0), ((8, 9), 153)]));
    run(|r| Nuvoton::reset_pwm(r, BASE, 3, true, mode), |op| chip.answer(op));
    assert_eq!(chip.values, HashMap::from([((8, 2), 0x14), ((8, 9), 153)]));
}

#[test]
fn ite_registers_have_no_banks() {
    let (value, made) = run(|r| Ite::read(r, BASE, 0x15), script(vec![Some(9)]));
    assert_eq!((value, made), (Some(9), vec![write(0x295, 0x15), read(0x296)]));
    let ((), made) = run(|r| Ite::write(r, BASE, 0x6B, 33), script(vec![]));
    assert_eq!(made, vec![write(0x295, 0x6B), write(0x296, 33)]);
}

#[test]
fn ite_speed() {
    let registers = [(0x0D, 0x18), (0x0E, 0x19), (0x0F, 0x1A), (0x80, 0x81), (0x82, 0x83)];
    for (fan, (hi, lo)) in registers.into_iter().enumerate() {
        let (rpm, made) =
            run(|r| Ite::read_rpm(r, BASE, fan), script(vec![Some(0x05), Some(0xDC)]));
        assert_eq!(rpm, Some(1000));
        assert_eq!(made, vec![write(0x295, hi), read(0x296), write(0x295, lo), read(0x296)]);
    }
    let speed = |hi, lo| run(|r| Ite::read_rpm(r, BASE, 0), script(vec![hi, lo])).0;
    assert_eq!(speed(Some(0), Some(0)), Some(0));
    assert_eq!(speed(Some(0xFF), Some(0xFF)), Some(0));
    assert_eq!(speed(Some(0xFF), Some(0xFE)), Some(22));
    assert_eq!(speed(None, Some(0)), None);
    assert_eq!(speed(Some(0), None), None);
    assert_eq!(run(|r| Ite::read_rpm(r, BASE, 5), script(vec![])), (None, vec![]));
}

#[test]
fn ite_duty_cycle() {
    let shown = |raw| run(|r| Ite::read_pwm(r, BASE, 4), script(vec![raw]));
    assert_eq!(shown(Some(127)), (Some(100), vec![write(0x295, 0x6F), read(0x296)]));
    assert_eq!(shown(Some(64)).0, Some(50));
    assert_eq!(shown(Some(255)).0, Some(100));
    assert_eq!(shown(None).0, None);
}

#[test]
fn ite_setting_clears_the_fan_bit() {
    let set = |fan, ctrl| run(|r| Ite::set_pwm(r, BASE, fan, 50), script(vec![ctrl])).1;
    let made = set(0, Some(0xFF));
    assert_eq!(made[3], write(0x296, 0xDF));
    assert_eq!(&made[4..], &[write(0x295, 0x6B), write(0x296, 63)]);
    assert_eq!(set(1, Some(0xFF))[3], write(0x296, 0xBF));
    assert_eq!(set(2, Some(0xFF))[3], write(0x296, 0x7F));
    assert_eq!(set(0, Some(0x10))[3], write(0x296, 0x10));
    let made = set(0, None);
    assert_eq!(&made[2..], &[write(0x295, 0x6B), write(0x296, 63)]);
}

#[test]
fn ite_fans_without_a_bit_leave_the_control_register_alone() {
    for (fan, reg) in [(3, 0x6E), (4, 0x6F)] {
        let (_, made) = run(|r| Ite::set_pwm(r, BASE, fan, 100), script(vec![]));
        assert_eq!(made, vec![write(0x295, reg), write(0x296, 127)]);
        let (_, made) = run(|r| Ite::reset_pwm(r, BASE, fan), script(vec![]));
        assert!(made.is_empty());
    }
}

#[test]
fn ite_resetting_sets_the_fan_bit() {
    let reset = |fan, ctrl| run(|r| Ite::reset_pwm(r, BASE, fan), script(vec![ctrl])).1;
    assert_eq!(reset(0, Some(0x03))[3], write(0x296, 0x23));
    assert_eq!(reset(1, Some(0x40))[3], write(0x296, 0x40));
    assert_eq!(reset(2, Some(0x00))[3], write(0x296, 0x80));
    assert_eq!(reset(0, None).len(), 2);
}

#[test]
fn fintek_registers_have_pages() {
    let (value, made) = run(|r| Fintek::read(r, BASE, 1, 0xA2), script(vec![Some(9)]));
    assert_eq!(value, Some(9));
    assert_eq!(made, vec![write(0x294, 1), write(0x295, 0xA2), read(0x296)]);
    let ((), made) = run(|r| Fintek::write(r, BASE, 0, 0xAA, 7), script(vec![]));
    assert_eq!(made, vec![write(0x294, 0), write(0x295, 0xAA), write(0x296, 7)]);
}

#[test]
fn fintek_speed_and_duty_cycle() {
    let (rpm, made) =
        run(|r| Fintek::read_rpm(r, BASE, 2), script(vec![Some(0x05), Some(0xDC)]));
    assert_eq!(rpm, Some(1000));
    assert_eq!((made[1], made[4]), (write(0x295, 0xC0), write(0x295, 0xC1)));
    let speed = |hi, lo| run(|r| Fintek::read_rpm(r, BASE, 0), script(vec![hi, lo])).0;
    assert_eq!(speed(Some(0), Some(0)), Some(0));
    assert_eq!(speed(Some(0xFF), Some(0xFF)), Some(0));
    assert_eq!(speed(None, Some(1)), None);
    let (pct, made) = run(|r| Fintek::read_pwm(r, BASE, 1), script(vec![Some(255)]));
    assert_eq!((pct, made[1]), (Some(100), write(0x295, 0xBA)));
    assert_eq!(run(|r| Fintek::read_pwm(r, BASE, 1), script(vec![None])).0, None);
}

#[test]
fn fintek_modes() {
    let (_, made) = run(|r| Fintek::set_pwm(r, BASE, 1, 50), script(vec![Some(0xFF)]));
    assert_eq!((made[1], made[5]), (write(0x295, 0xB2), write(0x296, 0xFD)));
    assert_eq!(&made[7..], &[write(0x295, 0xBA), write(0x296, 127)]);
    let (_, made) = run(|r| Fintek::set_pwm(r, BASE, 1, 50), script(vec![None]));
    assert_eq!(made.len(), 6);
    let (_, made) = run(|r| Fintek::reset_pwm(r, BASE, 0), script(vec![Some(0x54)]));
    assert_eq!((made[1], made[5]), (write(0x295, 0xA2), write(0x296, 0x57)));
    assert_eq!(run(|r| Fintek::reset_pwm(r, BASE, 0), script(vec![None])).1.len(), 3);
}

#[test]
fn nct6687_speed_and_duty_cycle() {
    let (rpm, made) =
        run(|r| Nct6687::read_rpm(r, BASE, 3), script(vec![Some(0xE5), Some(0xDC)]));
    assert_eq!(rpm, Some(900));
    assert_eq!(
        made,
        vec![
            write(0x294, 0x14),
            write(0x295, 0x06),
            read(0x296),
            write(0x294, 0x14),
            write(0x295, 0x07),
            read(0x296),
        ]
    );
    let speed = |hi, lo| run(|r| Nct6687::read_rpm(r, BASE, 0), script(vec![hi, lo])).0;
    assert_eq!(speed(Some(0xE0), Some(0)), Some(0));
    assert_eq!(speed(Some(0x1F), Some(0xFF)), Some(0));
    assert_eq!(speed(Some(0x1F), Some(0xFE)), Some(164));
    assert_eq!(speed(None, Some(1)), None);
    let (pct, made) = run(|r| Nct6687::read_pwm(r, BASE, 5), script(vec![Some(127)]));
    assert_eq!(pct, Some(49));
    assert_eq!(made, vec![write(0x294, 0x10), write(0x295, 0x05), read(0x296)]);
}

#[test]
fn nct6687_modes() {
    let (_, made) = run(|r| Nct6687::set_pwm(r, BASE, 2, 5), script(vec![]));
    assert_eq!(
        made,
        vec![
            write(0x294, 0x10),
            write(0x295, 0x22),
            write(0x296, 0xFF),
            write(0x294, 0x10),
            write(0x295, 0x02),
            write(0x296, 51),
        ]
    );
    let (_, made) = run(|r| Nct6687::reset_pwm(r, BASE, 2), script(vec![]));
    assert_eq!(made, vec![write(0x294, 0x10), write(0x295, 0x22), write(0x296, 0)]);
}

#[test]
fn an_operation_without_replies_asks_again() {
    let mut session = Ports::new(vec![None, None]);
    assert_eq!(Nuvoton::read_reg(&mut session, BASE, 1, 2), Err(write(0x295, 2)));
    let mut session = Ports::new(vec![None, None, None, Some(7), Some(8)]);
    assert_eq!(Nuvoton::read_reg(&mut session, BASE, 1, 2), Ok(Some(7)));
    assert_eq!(session.read_byte(0x10), Ok(Some(8)));
    assert_eq!(session.read_byte(0x10), Err(read(0x10)));
}
