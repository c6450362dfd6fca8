//! Nuvoton NCT677x and Winbond W836xx hardware monitors.
//!
//! Registers are accessed through an index port and a data port. A register lies in a bank,
//! which is selected by writing the bank number to register 0x4E.
//!
//! The NCT6779D and newer chips ("modern" below) have another register map than the older ones.
//! A 16-bit address of theirs names a bank in its high byte and a register in its low byte.
use vstd::prelude::*;

use crate::ports::{reading, reading_as, reading_pair, writing, PortOp, PortTalk, Ports};
use crate::session::{converse, ran, Dialogue};

verus! {

broadcast use crate::session::group_replay;

/// Access to the registers of a Nuvoton or Winbond chip.
pub struct Nuvoton;

/// Offset of the index port from the base port.
pub const IDX: u16 = 5;

/// Offset of the data port from the base port.
pub const DAT: u16 = 6;

/// Where a modern chip counts the revolutions of each fan.
pub open spec fn count_addresses() -> Seq<u16> {
    seq![0x4B0u16, 0x4B2, 0x4B4, 0x4B6, 0x4B8, 0x4BA, 0x4CC]
}

/// Where a modern chip shows the duty cycle of each fan.
pub open spec fn output_addresses() -> Seq<u16> {
    seq![0x001u16, 0x003, 0x011, 0x013, 0x015, 0xA09, 0xB09]
}

/// Where a modern chip takes the duty cycle of each fan.
pub open spec fn command_addresses() -> Seq<u16> {
    seq![0x109u16, 0x209, 0x309, 0x809, 0x909, 0xA09, 0xB09]
}

/// Where a modern chip takes the control mode of each fan.
pub open spec fn mode_addresses() -> Seq<u16> {
    seq![0x102u16, 0x202, 0x302, 0x802, 0x902, 0xA02, 0xB02]
}

/// The entry of `table` for `fan`, if it has one.
pub open spec fn entry(table: Seq<u16>, fan: usize) -> Option<u16> {
    if fan < table.len() {
        Some(table[fan as int])
    } else {
        None
    }
}

/// The speed that a modern chip's 13-bit count stands for. The high byte holds the count's upper
/// eight bits, the low byte its lower five.
pub open spec fn modern_rpm(hi: u8, lo: u8) -> u32 {
    let count = hi * 32 + lo % 32;
    if count >= 0x1FFF || count < 0x15 {
        0
    } else {
        (1_350_000int / count) as u32
    }
}

/// The speed that an older chip's 12-bit count stands for. The two bytes hold it in their lower
/// twelve bits. A count of zero, and two bytes of all ones, are those of a fan that stands still
/// or is missing.
pub open spec fn legacy_rpm(hi: u8, lo: u8) -> u32 {
    let word = hi * 256 + lo;
    let count = word % 0x1000;
    if count == 0 || word == 0xFFFF {
        0
    } else {
        (1_350_000int / count) as u32
    }
}

/// A duty cycle of 0 to 255 in percent.
pub open spec fn duty_pct(raw: u8) -> u8 {
    (raw * 100 / 255) as u8
}

/// The duty cycle of 0 to 255 for a number of percent.
pub open spec fn duty_raw(pct: u8) -> u8 {
    if pct * 255 / 100 > 255 {
        255
    } else {
        (pct * 255 / 100) as u8
    }
}

/// Selects a bank and reads one of its registers.
pub open spec fn reading_reg(iobase: u16, bank: u8, reg: u8) -> PortTalk<Option<u8>> {
    writing(iobase.wrapping_add(IDX), 0x4E).followed_by(
        writing(iobase.wrapping_add(DAT), bank).followed_by(
            writing(iobase.wrapping_add(IDX), reg).followed_by(reading(iobase.wrapping_add(DAT))),
        ),
    )
}

/// Selects a bank and writes one of its registers.
pub open spec fn writing_reg(iobase: u16, bank: u8, reg: u8, val: u8) -> PortTalk<()> {
    writing(iobase.wrapping_add(IDX), 0x4E).followed_by(
        writing(iobase.wrapping_add(DAT), bank).followed_by(
            writing(iobase.wrapping_add(IDX), reg).followed_by(
                writing(iobase.wrapping_add(DAT), val),
            ),
        ),
    )
}

/// Reads the register at a 16-bit address.
pub open spec fn reading_addr(iobase: u16, addr: u16) -> PortTalk<Option<u8>> {
    reading_reg(iobase, (addr / 256) as u8, (addr % 256) as u8)
}

/// Writes the register at a 16-bit address.
pub open spec fn writing_addr(iobase: u16, addr: u16, val: u8) -> PortTalk<()> {
    writing_reg(iobase, (addr / 256) as u8, (addr % 256) as u8, val)
}

/// The register in which an older chip holds the high byte of a fan's count.
pub open spec fn legacy_count_reg(fan: usize) -> u8 {
    0x28u8.wrapping_add((fan as u8).wrapping_mul(2))
}

/// The bank in which an older chip holds a fan's control registers.
pub open spec fn legacy_bank(fan: usize) -> u8 {
    fan.wrapping_add(1) as u8
}

/// Reads a fan's speed. A modern chip has no speed for a fan that its register map leaves out.
pub open spec fn reading_rpm(iobase: u16, fan: usize, modern: bool) -> PortTalk<Option<u32>> {
    if modern {
        match entry(count_addresses(), fan) {
            None => Dialogue::End(None),
            Some(addr) => reading_pair(
                reading_addr(iobase, addr),
                reading_addr(iobase, (addr + 1) as u16),
                |hi: u8, lo: u8| modern_rpm(hi, lo),
            ),
        }
    } else {
        let reg = legacy_count_reg(fan);
        reading_pair(
            reading_reg(iobase, 0, reg),
            reading_reg(iobase, 0, reg.wrapping_add(1)),
            |hi: u8, lo: u8| legacy_rpm(hi, lo),
        )
    }
}

/// Reads a fan's duty cycle in percent.
pub open spec fn reading_pwm(iobase: u16, fan: usize, modern: bool) -> PortTalk<Option<u8>> {
    if modern {
        match entry(output_addresses(), fan) {
            None => Dialogue::End(None),
            Some(addr) => reading_as(reading_addr(iobase, addr), |raw: u8| duty_pct(raw)),
        }
    } else {
        reading_as(reading_reg(iobase, legacy_bank(fan), 0x09), |raw: u8| duty_pct(raw))
    }
}

/// Reads the control mode of a modern chip's fan.
pub open spec fn reading_ctrl_mode(iobase: u16, fan: usize) -> PortTalk<Option<u8>> {
    match entry(mode_addresses(), fan) {
        None => Dialogue::End(None),
        Some(addr) => reading_addr(iobase, addr),
    }
}

/// Switches a fan to manual mode and sets its duty cycle. Nothing happens to a fan that a modern
/// chip's register map leaves out.
pub open spec fn setting_pwm(iobase: u16, fan: usize, pct: u8, modern: bool) -> PortTalk<()> {
    if modern {
        match (entry(mode_addresses(), fan), entry(command_addresses(), fan)) {
            (Some(mode), Some(command)) => writing_addr(iobase, mode, 0x00).followed_by(
                writing_addr(iobase, command, duty_raw(pct)),
            ),
            _ => Dialogue::End(()),
        }
    } else {
        writing_reg(iobase, legacy_bank(fan), 0x02, 0x00).followed_by(
            writing_reg(iobase, legacy_bank(fan), 0x09, duty_raw(pct)),
        )
    }
}

/// Hands a fan back to automatic control: writes the control mode `restore`, or the chip's usual
/// automatic mode where there is none to restore.
pub open spec fn resetting_pwm(
    iobase: u16,
    fan: usize,
    modern: bool,
    restore: Option<u8>,
) -> PortTalk<()> {
    if modern {
        match entry(mode_addresses(), fan) {
            None => Dialogue::End(()),
            Some(addr) => writing_addr(
                iobase,
                addr,
                match restore {
                    Some(mode) => mode,
                    None => 0x04u8,
                },
            ),
        }
    } else {
        writing_reg(
            iobase,
            legacy_bank(fan),
            0x02,
            match restore {
                Some(mode) => mode,
                None => 0x03u8,
            },
        )
    }
}

/// The state of a chip behind its two ports.
pub struct Registers {
    /// The register that the index port selected.
    pub index: u8,
    /// The bank that register 0x4E selected.
    pub bank: u8,
    /// The values by bank and register.
    pub values: Map<(u8, u8), u8>,
}

/// How a chip at `iobase` reacts to a port access.
pub open spec fn chip_at(iobase: u16) -> spec_fn(Registers, PortOp) -> (Registers, Option<u8>) {
    |chip: Registers, op: PortOp|
        match op {
            PortOp::Write { port, value } => if port == iobase.wrapping_add(IDX) {
                (Registers { index: value, ..chip }, None)
            } else if port == iobase.wrapping_add(DAT) {
                if chip.index == 0x4E {
                    (Registers { bank: value, ..chip }, None)
                } else {
                    (
                        Registers {
                            values: chip.values.insert((chip.bank, chip.index), value),
                            ..chip
                        },
                        None,
                    )
                }
            } else {
                (chip, None)
            },
            PortOp::Read { port } => if port == iobase.wrapping_add(DAT) {
                if chip.index == 0x4E {
                    (chip, Some(chip.bank))
                } else {
                    (chip, Some(chip.values[(chip.bank, chip.index)]))
                }
            } else {
                (chip, None)
            },
        }
}

/// Writing a register sets it, and it alone. (Register 0x4E selects the bank.)
pub proof fn lemma_write_sets(chip: Registers, iobase: u16, bank: u8, reg: u8, val: u8)
    requires
        reg != 0x4E,
    ensures
        converse(writing_reg(iobase, bank, reg, val), chip, chip_at(iobase)).0.values
            == chip.values.insert((bank, reg), val),
{
    broadcast use crate::session::group_converse;

}

/// Reading a register gives its value, whatever bank was selected before, and changes none.
pub proof fn lemma_read_gives(chip: Registers, iobase: u16, bank: u8, reg: u8)
    requires
        reg != 0x4E,
    ensures
        converse(reading_reg(iobase, bank, reg), chip, chip_at(iobase)).0.values == chip.values,
        converse(reading_reg(iobase, bank, reg), chip, chip_at(iobase)).1 == Some(
            chip.values[(bank, reg)],
        ),
{
    broadcast use crate::session::group_converse;

}

/// Reading a register, whichever it is, changes no value.
proof fn lemma_read_keeps(chip: Registers, iobase: u16, bank: u8, reg: u8)
    ensures
        converse(reading_reg(iobase, bank, reg), chip, chip_at(iobase)).0.values == chip.values,
{
    broadcast use crate::session::group_converse;

}

/// Reading a fan's speed or duty cycle changes no value.
pub proof fn lemma_reading_keeps(chip: Registers, iobase: u16, fan: usize, modern: bool)
    ensures
        converse(reading_rpm(iobase, fan, modern), chip, chip_at(iobase)).0.values == chip.values,
        converse(reading_pwm(iobase, fan, modern), chip, chip_at(iobase)).0.values == chip.values,
{
    broadcast use crate::session::lemma_converse_bind;

    let respond = chip_at(iobase);
    if !modern {
        let reg = legacy_count_reg(fan);
        lemma_read_keeps(chip, iobase, 0, reg);
        let between = converse(reading_reg(iobase, 0, reg), chip, respond).0;
        lemma_read_keeps(between, iobase, 0, reg.wrapping_add(1));
        lemma_read_keeps(chip, iobase, legacy_bank(fan), 0x09);
    } else {
        if let Some(addr) = entry(count_addresses(), fan) {
            let (hi, lo) = (place(addr), place((addr + 1) as u16));
            lemma_read_keeps(chip, iobase, hi.0, hi.1);
            let between = converse(reading_addr(iobase, addr), chip, respond).0;
            lemma_read_keeps(between, iobase, lo.0, lo.1);
        }
        if let Some(addr) = entry(output_addresses(), fan) {
            lemma_read_keeps(chip, iobase, place(addr).0, place(addr).1);
        }
    }
}

/// The bank and the register of a 16-bit address.
pub open spec fn place(addr: u16) -> (u8, u8) {
    ((addr / 256) as u8, (addr % 256) as u8)
}

/// The bank and the register of a fan's control mode, if the chip has them.
pub open spec fn mode_place(fan: usize, modern: bool) -> Option<(u8, u8)> {
    if !modern {
        Some((legacy_bank(fan), 0x02))
    } else {
        match entry(mode_addresses(), fan) {
            Some(addr) => Some(place(addr)),
            None => None,
        }
    }
}

/// The bank and the register that take a fan's duty cycle, if the chip has them.
pub open spec fn command_place(fan: usize, modern: bool) -> Option<(u8, u8)> {
    if !modern {
        Some((legacy_bank(fan), 0x09))
    } else {
        match entry(command_addresses(), fan) {
            Some(addr) => Some(place(addr)),
            None => None,
        }
    }
}

/// Setting a fan puts it into manual mode and sets its duty cycle, and changes nothing else.
pub proof fn lemma_set_pwm(chip: Registers, iobase: u16, fan: usize, pct: u8, modern: bool)
    ensures
        converse(setting_pwm(iobase, fan, pct, modern), chip, chip_at(iobase)).0.values == (match (
            mode_place(fan, modern),
            command_place(fan, modern),
        ) {
            (Some(mode), Some(command)) => chip.values.insert(mode, 0x00).insert(
                command,
                duty_raw(pct),
            ),
            _ => chip.values,
        }),
{
    broadcast use crate::session::group_converse;

    if let (Some(mode), Some(command)) = (mode_place(fan, modern), command_place(fan, modern)) {
        let first = writing_reg(iobase, mode.0, mode.1, 0x00);
        let between = converse(first, chip, chip_at(iobase)).0;
        lemma_write_sets(chip, iobase, mode.0, mode.1, 0x00);
        lemma_write_sets(between, iobase, command.0, command.1, duty_raw(pct));
    }
}

/// Handing a fan back sets its control mode to the one that is restored, or to the chip's usual
/// automatic mode, and changes nothing else.
pub proof fn lemma_reset_pwm(
    chip: Registers,
    iobase: u16,
    fan: usize,
    modern: bool,
    restore: Option<u8>,
)
    ensures
        converse(resetting_pwm(iobase, fan, modern, restore), chip, chip_at(iobase)).0.values == (
        match mode_place(fan, modern) {
            Some(mode) => chip.values.insert(
                mode,
                match restore {
                    Some(m) => m,
                    None => if modern {
                        0x04u8
                    } else {
                        0x03u8
                    },
                },
            ),
            None => chip.values,
        }),
{
    broadcast use crate::session::group_converse;

    if let Some(mode) = mode_place(fan, modern) {
        let value = match restore {
            Some(m) => m,
            None => if modern {
                0x04u8
            } else {
                0x03u8
            },
        };
        lemma_write_sets(chip, iobase, mode.0, mode.1, value);
    }
}

/// A fan that was switched to manual control and is handed back in the control mode that was
/// read before has that control mode again.
pub proof fn lemma_mode_restored(chip: Registers, iobase: u16, fan: usize, pct: u8)
    requires
        mode_place(fan, true) is Some,
    ensures
        ({
            let (read, mode) = converse(reading_ctrl_mode(iobase, fan), chip, chip_at(iobase));
            let set = converse(setting_pwm(iobase, fan, pct, true), read, chip_at(iobase)).0;
            let reset = converse(
                resetting_pwm(iobase, fan, true, mode),
                set,
                chip_at(iobase),
            ).0;
            let place = mode_place(fan, true)->0;
            reset.values[place] == chip.values[place]
        }),
{
    let place = mode_place(fan, true)->0;
    lemma_read_gives(chip, iobase, place.0, place.1);
    let (read, mode) = converse(reading_ctrl_mode(iobase, fan), chip, chip_at(iobase));
    lemma_set_pwm(read, iobase, fan, pct, true);
    let set = converse(setting_pwm(iobase, fan, pct, true), read, chip_at(iobase)).0;
    lemma_reset_pwm(set, iobase, fan, true, mode);
}

/// A fan of an older chip that turns is shown with 329 revolutions per minute or more: the count
/// goes no further.
pub proof fn lemma_legacy_speed(hi: u8, lo: u8)
    ensures
        legacy_rpm(hi, lo) == 0 || 329 <= legacy_rpm(hi, lo) <= 1_350_000,
{
    let count = (hi * 256 + lo) % 0x1000;
    if 0 < count {
        assert(329 <= 1_350_000int / count <= 1_350_000) by (nonlinear_arith)
            requires
                0 < count < 0x1000,
        ;
    }
}

/// A modern chip's fan whose duty cycle is taken and shown in one register, as the sixth and the
/// seventh fan's are, shows what was set, with at most one percent missing.
pub proof fn lemma_modern_shows_what_was_set(chip: Registers, iobase: u16, fan: usize, pct: u8)
    requires
        fan == 5 || fan == 6,
        pct <= 100,
    ensures
        ({
            let set = converse(setting_pwm(iobase, fan, pct, true), chip, chip_at(iobase)).0;
            converse(reading_pwm(iobase, fan, true), set, chip_at(iobase)).1 matches Some(shown)
                && shown <= pct <= shown + 1
        }),
{
    broadcast use crate::session::group_converse;

    let set = converse(setting_pwm(iobase, fan, pct, true), chip, chip_at(iobase)).0;
    let shown_at = place(output_addresses()[fan as int]);
    lemma_set_pwm(chip, iobase, fan, pct, true);
    lemma_read_gives(set, iobase, shown_at.0, shown_at.1);
    lemma_duty_round_trip(pct);
}

/// A chip of the older kind shows the duty cycle that was set, with at most one percent missing.
pub proof fn lemma_legacy_shows_what_was_set(chip: Registers, iobase: u16, fan: usize, pct: u8)
    requires
        pct <= 100,
    ensures
        ({
            let set = converse(setting_pwm(iobase, fan, pct, false), chip, chip_at(iobase)).0;
            converse(reading_pwm(iobase, fan, false), set, chip_at(iobase)).1 matches Some(shown)
                && shown <= pct <= shown + 1
        }),
{
    broadcast use crate::session::group_converse;

    let set = converse(setting_pwm(iobase, fan, pct, false), chip, chip_at(iobase)).0;
    lemma_set_pwm(chip, iobase, fan, pct, false);
    lemma_read_gives(set, iobase, legacy_bank(fan), 0x09);
    lemma_duty_round_trip(pct);
}

/// A duty cycle that is set is read back with at most one percent missing.
pub proof fn lemma_duty_round_trip(pct: u8)
    requires
        pct <= 100,
    ensures
        duty_pct(duty_raw(pct)) <= pct <= duty_pct(duty_raw(pct)) + 1,
{
}

fn count_address(fan: usize) -> (addr: Option<u16>)
    ensures
        addr == entry(count_addresses(), fan),
{
    match fan {
        0 => Some(0x4B0),
        1 => Some(0x4B2),
        2 => Some(0x4B4),
        3 => Some(0x4B6),
        4 => Some(0x4B8),
        5 => Some(0x4BA),
        6 => Some(0x4CC),
        _ => None,
    }
}

fn output_address(fan: usize) -> (addr: Option<u16>)
    ensures
        addr == entry(output_addresses(), fan),
{
    match fan {
        0 => Some(0x001),
        1 => Some(0x003),
        2 => Some(0x011),
        3 => Some(0x013),
        4 => Some(0x015),
        5 => Some(0xA09),
        6 => Some(0xB09),
        _ => None,
    }
}

fn command_address(fan: usize) -> (addr: Option<u16>)
    ensures
        addr == entry(command_addresses(), fan),
{
    match fan {
        0 => Some(0x109),
        1 => Some(0x209),
        2 => Some(0x309),
        3 => Some(0x809),
        4 => Some(0x909),
        5 => Some(0xA09),
        6 => Some(0xB09),
        _ => None,
    }
}

fn mode_address(fan: usize) -> (addr: Option<u16>)
    ensures
        addr == entry(mode_addresses(), fan),
{
    match fan {
        0 => Some(0x102),
        1 => Some(0x202),
        2 => Some(0x302),
        3 => Some(0x802),
        4 => Some(0x902),
        5 => Some(0xA02),
        6 => Some(0xB02),
        _ => None,
    }
}

/// The duty cycle of 0 to 255 for `pct` percent.
pub fn raw_duty(pct: u8) -> (raw: u8)
    ensures
        raw == duty_raw(pct),
{
    let scaled: u32 = pct as u32 * 255 / 100;
    if scaled > 255 {
        255
    } else {
        scaled as u8
    }
}

impl Nuvoton {
    /// Reads register `reg` of bank `bank`.
    pub fn read_reg(r: &mut Ports, iobase: u16, bank: u8, reg: u8) -> (out: Result<
        Option<u8>,
        PortOp,
    >)
        ensures
            ran(reading_reg(iobase, bank, reg), old(r).remaining(), final(r).remaining(), out),
    {
        r.write_byte(iobase.wrapping_add(IDX), 0x4E)?;
        r.write_byte(iobase.wrapping_add(DAT), bank)?;
        r.write_byte(iobase.wrapping_add(IDX), reg)?;
        r.read_byte(iobase.wrapping_add(DAT))
    }

    /// Writes `val` to register `reg` of bank `bank`.
    pub fn write_reg(r: &mut Ports, iobase: u16, bank: u8, reg: u8, val: u8) -> (out: Result<
        (),
        PortOp,
    >)
        ensures
            ran(writing_reg(iobase, bank, reg, val), old(r).remaining(), final(r).remaining(), out),
    {
        r.write_byte(iobase.wrapping_add(IDX), 0x4E)?;
        r.write_byte(iobase.wrapping_add(DAT), bank)?;
        r.write_byte(iobase.wrapping_add(IDX), reg)?;
        r.write_byte(iobase.wrapping_add(DAT), val)
    }

    /// Reads the register at the 16-bit address `addr`.
    pub fn read_addr(r: &mut Ports, iobase: u16, addr: u16) -> (out: Result<Option<u8>, PortOp>)
        ensures
            ran(reading_addr(iobase, addr), old(r).remaining(), final(r).remaining(), out),
    {
        Self::read_reg(r, iobase, (addr / 256) as u8, (addr % 256) as u8)
    }

    /// Writes the register at the 16-bit address `addr`.
    pub fn write_addr(r: &mut Ports, iobase: u16, addr: u16, val: u8) -> (out: Result<(), PortOp>)
        ensures
            ran(writing_addr(iobase, addr, val), old(r).remaining(), final(r).remaining(), out),
    {
        Self::write_reg(r, iobase, (addr / 256) as u8, (addr % 256) as u8, val)
    }

    /// Fan speed in revolutions per minute; zero stands for a fan that is missing or stands
    /// still.
    pub fn read_rpm(r: &mut Ports, iobase: u16, fan: usize, modern: bool) -> (out: Result<
        Option<u32>,
        PortOp,
    >)
        ensures
            ran(reading_rpm(iobase, fan, modern), old(r).remaining(), final(r).remaining(), out),
    {
        if modern {
            let addr: u16 = match count_address(fan) {
                Some(addr) => addr,
                None => return Ok(None),
            };
            let hi: u32 = match Self::read_addr(r, iobase, addr)? {
                Some(hi) => hi as u32,
                None => return Ok(None),
            };
            let lo: u32 = match Self::read_addr(r, iobase, addr + 1)? {
                Some(lo) => lo as u32,
                None => return Ok(None),
            };
            let count: u32 = hi * 32 + lo % 32;
            if count >= 0x1FFF || count < 0x15 {
                Ok(Some(0))
            } else {
                Ok(Some(1_350_000 / count))
            }
        } else {
            let hi_reg: u8 = 0x28u8.wrapping_add((fan as u8).wrapping_mul(2));
            let hi: u32 = match Self::read_reg(r, iobase, 0, hi_reg)? {
                Some(hi) => hi as u32,
                None => return Ok(None),
            };
            let lo: u32 = match Self::read_reg(r, iobase, 0, hi_reg.wrapping_add(1))? {
                Some(lo) => lo as u32,
                None => return Ok(None),
            };
            let word: u32 = hi * 256 + lo;
            let count: u32 = word % 0x1000;
            if count == 0 || word == 0xFFFF {
                Ok(Some(0))
            } else {
                Ok(Some(1_350_000 / count))
            }
        }
    }

    /// Current duty cycle in percent.
    pub fn read_pwm(r: &mut Ports, iobase: u16, fan: usize, modern: bool) -> (out: Result<
        Option<u8>,
        PortOp,
    >)
        ensures
            ran(reading_pwm(iobase, fan, modern), old(r).remaining(), final(r).remaining(), out),
    {
        let raw = if modern {
            match output_address(fan) {
                Some(addr) => Self::read_addr(r, iobase, addr)?,
                None => return Ok(None),
            }
        } else {
            Self::read_reg(r, iobase, fan.wrapping_add(1) as u8, 0x09)?
        };
        match raw {
            Some(raw) => Ok(Some((raw as u32 * 100 / 255) as u8)),
            None => Ok(None),
        }
    }

    /// The control mode of a modern chip's fan, as the firmware or the last write left it.
    pub fn read_ctrl_mode(r: &mut Ports, iobase: u16, fan: usize) -> (out: Result<
        Option<u8>,
        PortOp,
    >)
        ensures
            ran(reading_ctrl_mode(iobase, fan), old(r).remaining(), final(r).remaining(), out),
    {
        match mode_address(fan) {
            Some(addr) => Self::read_addr(r, iobase, addr),
            None => Ok(None),
        }
    }

    /// Switches a fan to manual mode at `pct` percent.
    pub fn set_pwm(r: &mut Ports, iobase: u16, fan: usize, pct: u8, modern: bool) -> (out: Result<
        (),
        PortOp,
    >)
        ensures
            ran(
                setting_pwm(iobase, fan, pct, modern),
                old(r).remaining(),
                final(r).remaining(),
                out,
            ),
    {
        let raw: u8 = raw_duty(pct);
        if modern {
            if let (Some(mode), Some(command)) = (mode_address(fan), command_address(fan)) {
                Self::write_addr(r, iobase, mode, 0x00)?;
                Self::write_addr(r, iobase, command, raw)
            } else {
                Ok(())
            }
        } else {
            let bank: u8 = fan.wrapping_add(1) as u8;
            Self::write_reg(r, iobase, bank, 0x02, 0x00)?;
            Self::write_reg(r, iobase, bank, 0x09, raw)
        }
    }

    /// Hands a fan back to automatic control. `restore` is the control mode that was read before
    /// the first manual write.
    pub fn reset_pwm(
        r: &mut Ports,
        iobase: u16,
        fan: usize,
        modern: bool,
        restore: Option<u8>,
    ) -> (out: Result<(), PortOp>)
        ensures
            ran(
                resetting_pwm(iobase, fan, modern, restore),
                old(r).remaining(),
                final(r).remaining(),
                out,
            ),
    {
        if modern {
            let mode: u8 = match restore {
                Some(mode) => mode,
                None => 0x04,
            };
            match mode_address(fan) {
                Some(addr) => Self::write_addr(r, iobase, addr, mode),
                None => Ok(()),
            }
        } else {
            let mode: u8 = match restore {
                Some(mode) => mode,
                None => 0x03,
            };
            Self::write_reg(r, iobase, fan.wrapping_add(1) as u8, 0x02, mode)
        }
    }
}

} // verus!
