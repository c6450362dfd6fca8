//! Fintek F71xxx hardware monitors.
//!
//! A register lies on a page. The page, the register and the data each have a port.
use vstd::prelude::*;

use crate::nuvoton::{duty_raw, raw_duty};
use crate::ports::{reading, reading_as, reading_pair, writing, PortOp, PortTalk, Ports};
use crate::session::{converse, ran, Dialogue};

verus! {

broadcast use crate::session::group_replay;

/// Access to the registers of a Fintek chip.
pub struct Fintek;

/// The register at `first` of a fan's block; the fans' blocks lie 16 registers apart.
pub open spec fn fan_reg(first: u8, fan: usize) -> u8 {
    first.wrapping_add((fan as u8).wrapping_mul(0x10))
}

/// The speed that a 16-bit count stands for.
pub open spec fn count_rpm(hi: u8, lo: u8) -> u32 {
    let count = hi * 256 + lo;
    if count == 0 || count == 0xFFFF {
        0
    } else {
        (1_500_000int / count) as u32
    }
}

/// A duty cycle of 0 to 255 in percent.
pub open spec fn duty_pct(raw: u8) -> u8 {
    if raw * 100 / 255 > 100 {
        100
    } else {
        (raw * 100 / 255) as u8
    }
}

/// A mode register with manual control selected in its lowest two bits.
pub open spec fn manual_mode(mode: u8) -> u8 {
    (mode - mode % 4 + 1) as u8
}

/// A mode register with automatic control selected in its lowest two bits.
pub open spec fn auto_mode(mode: u8) -> u8 {
    (mode - mode % 4 + 3) as u8
}

/// Selects a page and reads one of its registers.
pub open spec fn reading_reg(iobase: u16, page: u8, reg: u8) -> PortTalk<Option<u8>> {
    writing(iobase.wrapping_add(4), page).followed_by(
        writing(iobase.wrapping_add(5), reg).followed_by(reading(iobase.wrapping_add(6))),
    )
}

/// Selects a page and writes one of its registers.
pub open spec fn writing_reg(iobase: u16, page: u8, reg: u8, val: u8) -> PortTalk<()> {
    writing(iobase.wrapping_add(4), page).followed_by(
        writing(iobase.wrapping_add(5), reg).followed_by(writing(iobase.wrapping_add(6), val)),
    )
}

/// Reads a fan's speed.
pub open spec fn reading_rpm(iobase: u16, fan: usize) -> PortTalk<Option<u32>> {
    reading_pair(
        reading_reg(iobase, 0, fan_reg(0xA0, fan)),
        reading_reg(iobase, 0, fan_reg(0xA0, fan).wrapping_add(1)),
        |hi: u8, lo: u8| count_rpm(hi, lo),
    )
}

/// Reads a fan's duty cycle in percent.
pub open spec fn reading_pwm(iobase: u16, fan: usize) -> PortTalk<Option<u8>> {
    reading_as(reading_reg(iobase, 0, fan_reg(0xAA, fan)), |raw: u8| duty_pct(raw))
}

/// Reads a fan's mode register and, if it can be read, writes back what `change` makes of it.
pub open spec fn changing_mode(
    iobase: u16,
    fan: usize,
    change: spec_fn(u8) -> u8,
) -> PortTalk<()> {
    reading_reg(iobase, 0, fan_reg(0xA2, fan)).bind(
        |mode: Option<u8>|
            match mode {
                Some(m) => writing_reg(iobase, 0, fan_reg(0xA2, fan), change(m)),
                None => Dialogue::End(()),
            },
    )
}

/// Switches a fan to manual mode and sets its duty cycle. The duty cycle is set even where the
/// mode register cannot be read.
pub open spec fn setting_pwm(iobase: u16, fan: usize, pct: u8) -> PortTalk<()> {
    changing_mode(iobase, fan, |m: u8| manual_mode(m)).followed_by(
        writing_reg(iobase, 0, fan_reg(0xAA, fan), duty_raw(pct)),
    )
}

/// Switches a fan to automatic mode.
pub open spec fn resetting_pwm(iobase: u16, fan: usize) -> PortTalk<()> {
    changing_mode(iobase, fan, |m: u8| auto_mode(m))
}

/// The state of a chip behind its three ports.
pub struct Registers {
    /// The page that was selected.
    pub page: u8,
    /// The register that was selected.
    pub index: u8,
    /// The values by page and register.
    pub values: Map<(u8, u8), u8>,
}

/// How a chip at `iobase` reacts to a port access.
pub open spec fn chip_at(iobase: u16) -> spec_fn(Registers, PortOp) -> (Registers, Option<u8>) {
    |chip: Registers, op: PortOp|
        match op {
            PortOp::Write { port, value } => if port == iobase.wrapping_add(4) {
                (Registers { page: value, ..chip }, None)
            } else if port == iobase.wrapping_add(5) {
                (Registers { index: value, ..chip }, None)
            } else if port == iobase.wrapping_add(6) {
                (
                    Registers {
                        values: chip.values.insert((chip.page, chip.index), value),
                        ..chip
                    },
                    None,
                )
            } else {
                (chip, None)
            },
            PortOp::Read { port } => if port == iobase.wrapping_add(6) {
                (chip, Some(chip.values[(chip.page, chip.index)]))
            } else {
                (chip, None)
            },
        }
}

/// Writing a register sets it, and it alone.
pub proof fn lemma_write_sets(chip: Registers, iobase: u16, page: u8, reg: u8, val: u8)
    ensures
        converse(writing_reg(iobase, page, reg, val), chip, chip_at(iobase)).0.values
            == chip.values.insert((page, reg), val),
{
    broadcast use crate::session::group_converse;

}

/// Reading a register gives its value, whatever page was selected before, and changes none.
pub proof fn lemma_read_gives(chip: Registers, iobase: u16, page: u8, reg: u8)
    ensures
        converse(reading_reg(iobase, page, reg), chip, chip_at(iobase)).0.values == chip.values,
        converse(reading_reg(iobase, page, reg), chip, chip_at(iobase)).1 == Some(
            chip.values[(page, reg)],
        ),
{
    broadcast use crate::session::group_converse;

}

/// Reading a fan's speed or duty cycle changes no value.
pub proof fn lemma_reading_keeps(chip: Registers, iobase: u16, fan: usize)
    ensures
        converse(reading_rpm(iobase, fan), chip, chip_at(iobase)).0.values == chip.values,
        converse(reading_pwm(iobase, fan), chip, chip_at(iobase)).0.values == chip.values,
{
    broadcast use crate::session::lemma_converse_bind;

    let reg = fan_reg(0xA0, fan);
    lemma_read_gives(chip, iobase, 0, reg);
    let between = converse(reading_reg(iobase, 0, reg), chip, chip_at(iobase)).0;
    lemma_read_gives(between, iobase, 0, reg.wrapping_add(1));
    lemma_read_gives(chip, iobase, 0, fan_reg(0xAA, fan));
}

/// Setting a fan selects manual control in its mode register and sets its duty cycle, and
/// changes nothing else.
pub proof fn lemma_set_pwm(chip: Registers, iobase: u16, fan: usize, pct: u8)
    ensures
        converse(setting_pwm(iobase, fan, pct), chip, chip_at(iobase)).0.values
            == chip.values.insert(
            (0, fan_reg(0xA2, fan)),
            manual_mode(chip.values[(0, fan_reg(0xA2, fan))]),
        ).insert((0, fan_reg(0xAA, fan)), duty_raw(pct)),
{
    broadcast use crate::session::group_converse;

    let reg = fan_reg(0xA2, fan);
    let value = manual_mode(chip.values[(0, reg)]);
    lemma_read_gives(chip, iobase, 0, reg);
    let read = converse(reading_reg(iobase, 0, reg), chip, chip_at(iobase)).0;
    lemma_write_sets(read, iobase, 0, reg, value);
    let between = converse(writing_reg(iobase, 0, reg, value), read, chip_at(iobase)).0;
    lemma_write_sets(between, iobase, 0, fan_reg(0xAA, fan), duty_raw(pct));
}

/// Handing a fan back selects automatic control in its mode register, and changes nothing else.
pub proof fn lemma_reset_pwm(chip: Registers, iobase: u16, fan: usize)
    ensures
        converse(resetting_pwm(iobase, fan), chip, chip_at(iobase)).0.values == chip.values.insert(
            (0, fan_reg(0xA2, fan)),
            auto_mode(chip.values[(0, fan_reg(0xA2, fan))]),
        ),
{
    broadcast use crate::session::group_converse;

    let reg = fan_reg(0xA2, fan);
    lemma_read_gives(chip, iobase, 0, reg);
    let read = converse(reading_reg(iobase, 0, reg), chip, chip_at(iobase)).0;
    lemma_write_sets(read, iobase, 0, reg, auto_mode(chip.values[(0, reg)]));
}

/// A fan that was under automatic temperature control is so again after it was set and handed
/// back, with its mode register as it was.
pub proof fn lemma_reset_undoes_set(chip: Registers, iobase: u16, fan: usize, pct: u8)
    requires
        chip.values[(0, fan_reg(0xA2, fan))] % 4 == 3,
    ensures
        ({
            let set = converse(setting_pwm(iobase, fan, pct), chip, chip_at(iobase)).0;
            let reset = converse(resetting_pwm(iobase, fan), set, chip_at(iobase)).0;
            let place = (0u8, fan_reg(0xA2, fan));
            reset.values[place] == chip.values[place]
        }),
{
    lemma_set_pwm(chip, iobase, fan, pct);
    let set = converse(setting_pwm(iobase, fan, pct), chip, chip_at(iobase)).0;
    lemma_reset_pwm(set, iobase, fan);
}

/// The chip shows the duty cycle that was set, with at most one percent missing.
pub proof fn lemma_shows_what_was_set(chip: Registers, iobase: u16, fan: usize, pct: u8)
    requires
        pct <= 100,
    ensures
        ({
            let set = converse(setting_pwm(iobase, fan, pct), chip, chip_at(iobase)).0;
            converse(reading_pwm(iobase, fan), set, chip_at(iobase)).1 matches Some(shown)
                && shown <= pct <= shown + 1
        }),
{
    broadcast use crate::session::group_converse;

    lemma_set_pwm(chip, iobase, fan, pct);
    let set = converse(setting_pwm(iobase, fan, pct), chip, chip_at(iobase)).0;
    lemma_read_gives(set, iobase, 0, fan_reg(0xAA, fan));
    assert(duty_pct(duty_raw(pct)) <= pct <= duty_pct(duty_raw(pct)) + 1);
}

fn block_reg(first: u8, fan: usize) -> (reg: u8)
    ensures
        reg == fan_reg(first, fan),
{
    first.wrapping_add((fan as u8).wrapping_mul(0x10))
}

fn select_manual(mode: u8) -> (out: u8)
    ensures
        out == manual_mode(mode),
{
    assert((mode & 0xFC) | 0x01 == mode - mode % 4 + 1) by (bit_vector);
    (mode & 0xFC) | 0x01
}

fn select_auto(mode: u8) -> (out: u8)
    ensures
        out == auto_mode(mode),
{
    assert(mode | 0x03 == mode - mode % 4 + 3) by (bit_vector);
    mode | 0x03
}

impl Fintek {
    /// Reads register `reg` of page `page`.
    pub fn read(r: &mut Ports, iobase: u16, page: u8, reg: u8) -> (out: Result<Option<u8>, PortOp>)
        ensures
            ran(reading_reg(iobase, page, reg), old(r).remaining(), final(r).remaining(), out),
    {
        r.write_byte(iobase.wrapping_add(4), page)?;
        r.write_byte(iobase.wrapping_add(5), reg)?;
        r.read_byte(iobase.wrapping_add(6))
    }

    /// Writes `val` to register `reg` of page `page`.
    pub fn write(r: &mut Ports, iobase: u16, page: u8, reg: u8, val: u8) -> (out: Result<
        (),
        PortOp,
    >)
        ensures
            ran(writing_reg(iobase, page, reg, val), old(r).remaining(), final(r).remaining(), out),
    {
        r.write_byte(iobase.wrapping_add(4), page)?;
        r.write_byte(iobase.wrapping_add(5), reg)?;
        r.write_byte(iobase.wrapping_add(6), val)
    }

    /// Fan speed in revolutions per minute.
    pub fn read_rpm(r: &mut Ports, iobase: u16, fan: usize) -> (out: Result<Option<u32>, PortOp>)
        ensures
            ran(reading_rpm(iobase, fan), old(r).remaining(), final(r).remaining(), out),
    {
        let reg: u8 = block_reg(0xA0, fan);
        let hi: u32 = match Self::read(r, iobase, 0, reg)? {
            Some(hi) => hi as u32,
            None => return Ok(None),
        };
        let lo: u32 = match Self::read(r, iobase, 0, reg.wrapping_add(1))? {
            Some(lo) => lo as u32,
            None => return Ok(None),
        };
        let count: u32 = hi * 256 + lo;
        if count == 0 || count == 0xFFFF {
            Ok(Some(0))
        } else {
            Ok(Some(1_500_000 / count))
        }
    }

    /// Current duty cycle in percent.
    pub fn read_pwm(r: &mut Ports, iobase: u16, fan: usize) -> (out: Result<Option<u8>, PortOp>)
        ensures
            ran(reading_pwm(iobase, fan), old(r).remaining(), final(r).remaining(), out),
    {
        match Self::read(r, iobase, 0, block_reg(0xAA, fan))? {
            Some(raw) => {
                let pct: u32 = raw as u32 * 100 / 255;
                Ok(
                    Some(
                        if pct > 100 {
                            100
                        } else {
                            pct as u8
                        },
                    ),
                )
            },
            None => Ok(None),
        }
    }

    /// Switches a fan to manual mode at `pct` percent.
    pub fn set_pwm(r: &mut Ports, iobase: u16, fan: usize, pct: u8) -> (out: Result<(), PortOp>)
        ensures
            ran(setting_pwm(iobase, fan, pct), old(r).remaining(), final(r).remaining(), out),
    {
        let mode_reg: u8 = block_reg(0xA2, fan);
        if let Some(mode) = Self::read(r, iobase, 0, mode_reg)? {
            Self::write(r, iobase, 0, mode_reg, select_manual(mode))?;
        }
        Self::write(r, iobase, 0, block_reg(0xAA, fan), raw_duty(pct))
    }

    /// Hands a fan back to automatic temperature control.
    pub fn reset_pwm(r: &mut Ports, iobase: u16, fan: usize) -> (out: Result<(), PortOp>)
        ensures
            ran(resetting_pwm(iobase, fan), old(r).remaining(), final(r).remaining(), out),
    {
        let mode_reg: u8 = block_reg(0xA2, fan);
        if let Some(mode) = Self::read(r, iobase, 0, mode_reg)? {
            Self::write(r, iobase, 0, mode_reg, select_auto(mode))?;
        }
        Ok(())
    }
}

} // verus!
