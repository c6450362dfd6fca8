//! Nuvoton NCT6687D hardware monitor.
//!
//! The chip has 16-bit register addresses. The high byte, the low byte and the data each have a
//! port. Per fan, a count of revolutions lies at 0x1400 + 2 * fan, the duty cycle at
//! 0x1000 + fan, and the control mode (0x00 automatic, 0xFF manual) at 0x1020 + fan.
use vstd::prelude::*;

use crate::fan::{at_least, floored};
use crate::fintek::{chip_at, Registers};
use crate::nuvoton::{duty_pct, duty_raw, lemma_duty_round_trip, place, raw_duty};
use crate::ports::{reading, reading_as, reading_pair, writing, PortOp, PortTalk, Ports};
use crate::session::{converse, ran};

verus! {

broadcast use crate::session::group_replay;

/// Access to the registers of an NCT6687D.
pub struct Nct6687;

/// The register with the high byte of a fan's count.
pub open spec fn count_reg(fan: usize) -> u16 {
    0x1400u16.wrapping_add((fan as u16).wrapping_mul(2))
}

/// The register of a fan's duty cycle.
pub open spec fn duty_reg(fan: usize) -> u16 {
    0x1000u16.wrapping_add(fan as u16)
}

/// The register of a fan's control mode.
pub open spec fn mode_reg(fan: usize) -> u16 {
    0x1020u16.wrapping_add(fan as u16)
}

/// The speed that a 13-bit count stands for.
pub open spec fn count_rpm(hi: u8, lo: u8) -> u32 {
    let count = (hi * 256 + lo) % 0x2000;
    if count == 0 || count >= 0x1FFF {
        0
    } else {
        (1_350_000int / count) as u32
    }
}

/// Reads a register.
pub open spec fn reading_reg(iobase: u16, reg: u16) -> PortTalk<Option<u8>> {
    writing(iobase.wrapping_add(4), (reg / 256) as u8).followed_by(
        writing(iobase.wrapping_add(5), (reg % 256) as u8).followed_by(
            reading(iobase.wrapping_add(6)),
        ),
    )
}

/// Writes a register.
pub open spec fn writing_reg(iobase: u16, reg: u16, val: u8) -> PortTalk<()> {
    writing(iobase.wrapping_add(4), (reg / 256) as u8).followed_by(
        writing(iobase.wrapping_add(5), (reg % 256) as u8).followed_by(
            writing(iobase.wrapping_add(6), val),
        ),
    )
}

/// Reads a fan's speed.
pub open spec fn reading_rpm(iobase: u16, fan: usize) -> PortTalk<Option<u32>> {
    reading_pair(
        reading_reg(iobase, count_reg(fan)),
        reading_reg(iobase, count_reg(fan).wrapping_add(1)),
        |hi: u8, lo: u8| count_rpm(hi, lo),
    )
}

/// Reads a fan's duty cycle in percent.
pub open spec fn reading_pwm(iobase: u16, fan: usize) -> PortTalk<Option<u8>> {
    reading_as(reading_reg(iobase, duty_reg(fan)), |raw: u8| duty_pct(raw))
}

/// Switches a fan to manual mode and sets its duty cycle.
pub open spec fn setting_pwm(iobase: u16, fan: usize, pct: u8) -> PortTalk<()> {
    writing_reg(iobase, mode_reg(fan), 0xFF).followed_by(
        writing_reg(iobase, duty_reg(fan), duty_raw(at_least(pct, 20))),
    )
}

/// Switches a fan to automatic mode.
pub open spec fn resetting_pwm(iobase: u16, fan: usize) -> PortTalk<()> {
    writing_reg(iobase, mode_reg(fan), 0x00)
}

/// Writing a register sets it, and it alone. The chip behaves as one whose pages are the high
/// bytes of the addresses.
pub proof fn lemma_write_sets(chip: Registers, iobase: u16, reg: u16, val: u8)
    ensures
        converse(writing_reg(iobase, reg, val), chip, chip_at(iobase)).0.values
            == chip.values.insert(place(reg), val),
{
    broadcast use crate::session::group_converse;

}

/// Reading a register gives its value and changes none.
pub proof fn lemma_read_gives(chip: Registers, iobase: u16, reg: u16)
    ensures
        converse(reading_reg(iobase, reg), chip, chip_at(iobase)).0.values == chip.values,
        converse(reading_reg(iobase, reg), chip, chip_at(iobase)).1 == Some(
            chip.values[place(reg)],
        ),
{
    broadcast use crate::session::group_converse;

}

/// Reading a fan's speed or duty cycle changes no value.
pub proof fn lemma_reading_keeps(chip: Registers, iobase: u16, fan: usize)
    ensures
        converse(reading_rpm(iobase, fan), chip, chip_at(iobase)).0.values == chip.values,
        converse(reading_pwm(iobase, fan), chip, chip_at(iobase)).0.values == chip.values,
{
    broadcast use crate::session::lemma_converse_bind;

    let reg = count_reg(fan);
    lemma_read_gives(chip, iobase, reg);
    let between = converse(reading_reg(iobase, reg), chip, chip_at(iobase)).0;
    lemma_read_gives(between, iobase, reg.wrapping_add(1));
    lemma_read_gives(chip, iobase, duty_reg(fan));
}

/// Setting a fan puts it into manual mode and sets its duty cycle, and changes nothing else.
pub proof fn lemma_set_pwm(chip: Registers, iobase: u16, fan: usize, pct: u8)
    ensures
        converse(setting_pwm(iobase, fan, pct), chip, chip_at(iobase)).0.values
            == chip.values.insert(place(mode_reg(fan)), 0xFF).insert(
            place(duty_reg(fan)),
            duty_raw(at_least(pct, 20)),
        ),
{
    broadcast use crate::session::group_converse;

    lemma_write_sets(chip, iobase, mode_reg(fan), 0xFF);
    let between = converse(writing_reg(iobase, mode_reg(fan), 0xFF), chip, chip_at(iobase)).0;
    lemma_write_sets(between, iobase, duty_reg(fan), duty_raw(at_least(pct, 20)));
}

/// Handing a fan back puts it into automatic mode, and changes nothing else.
pub proof fn lemma_reset_pwm(chip: Registers, iobase: u16, fan: usize)
    ensures
        converse(resetting_pwm(iobase, fan), chip, chip_at(iobase)).0.values == chip.values.insert(
            place(mode_reg(fan)),
            0x00,
        ),
{
    lemma_write_sets(chip, iobase, mode_reg(fan), 0x00);
}

/// A fan that was in automatic mode is so again after it was set and handed back.
pub proof fn lemma_reset_undoes_set(chip: Registers, iobase: u16, fan: usize, pct: u8)
    requires
        chip.values[place(mode_reg(fan))] == 0x00,
    ensures
        ({
            let set = converse(setting_pwm(iobase, fan, pct), chip, chip_at(iobase)).0;
            let reset = converse(resetting_pwm(iobase, fan), set, chip_at(iobase)).0;
            reset.values[place(mode_reg(fan))] == chip.values[place(mode_reg(fan))]
        }),
{
    let set = converse(setting_pwm(iobase, fan, pct), chip, chip_at(iobase)).0;
    lemma_reset_pwm(set, iobase, fan);
}

/// The chip shows the duty cycle that was set, with at most one percent missing.
pub proof fn lemma_shows_what_was_set(chip: Registers, iobase: u16, fan: usize, pct: u8)
    requires
        20 <= pct <= 100,
    ensures
        ({
            let set = converse(setting_pwm(iobase, fan, pct), chip, chip_at(iobase)).0;
            converse(reading_pwm(iobase, fan), set, chip_at(iobase)).1 matches Some(shown)
                && shown <= pct <= shown + 1
        }),
{
    broadcast use crate::session::group_converse;

    lemma_set_pwm(chip, iobase, fan, pct);
    let set = converse(setting_pwm(iobase, fan, pct), chip, chip_at(iobase)).0;
    lemma_read_gives(set, iobase, duty_reg(fan));
    lemma_duty_round_trip(pct);
}

impl Nct6687 {
    /// Reads register `reg`.
    pub fn read(r: &mut Ports, iobase: u16, reg: u16) -> (out: Result<Option<u8>, PortOp>)
        ensures
            ran(reading_reg(iobase, reg), old(r).remaining(), final(r).remaining(), out),
    {
        r.write_byte(iobase.wrapping_add(4), (reg / 256) as u8)?;
        r.write_byte(iobase.wrapping_add(5), (reg % 256) as u8)?;
        r.read_byte(iobase.wrapping_add(6))
    }

    /// Writes `val` to register `reg`.
    pub fn write(r: &mut Ports, iobase: u16, reg: u16, val: u8) -> (out: Result<(), PortOp>)
        ensures
            ran(writing_reg(iobase, reg, val), old(r).remaining(), final(r).remaining(), out),
    {
        r.write_byte(iobase.wrapping_add(4), (reg / 256) as u8)?;
        r.write_byte(iobase.wrapping_add(5), (reg % 256) as u8)?;
        r.write_byte(iobase.wrapping_add(6), val)
    }

    /// Fan speed in revolutions per minute.
    pub fn read_rpm(r: &mut Ports, iobase: u16, fan: usize) -> (out: Result<Option<u32>, PortOp>)
        ensures
            ran(reading_rpm(iobase, fan), old(r).remaining(), final(r).remaining(), out),
    {
        let base: u16 = 0x1400u16.wrapping_add((fan as u16).wrapping_mul(2));
        let hi: u32 = match Self::read(r, iobase, base)? {
            Some(hi) => hi as u32,
            None => return Ok(None),
        };
        let lo: u32 = match Self::read(r, iobase, base.wrapping_add(1))? {
            Some(lo) => lo as u32,
            None => return Ok(None),
        };
        let count: u32 = (hi * 256 + lo) % 0x2000;
        if count == 0 || count >= 0x1FFF {
            Ok(Some(0))
        } else {
            Ok(Some(1_350_000 / count))
        }
    }

    /// Current duty cycle in percent.
    pub fn read_pwm(r: &mut Ports, iobase: u16, fan: usize) -> (out: Result<Option<u8>, PortOp>)
        ensures
            ran(reading_pwm(iobase, fan), old(r).remaining(), final(r).remaining(), out),
    {
        match Self::read(r, iobase, 0x1000u16.wrapping_add(fan as u16))? {
            Some(raw) => Ok(Some((raw as u32 * 100 / 255) as u8)),
            None => Ok(None),
        }
    }

    /// Switches a fan to manual mode at `pct` percent, at least 20.
    pub fn set_pwm(r: &mut Ports, iobase: u16, fan: usize, pct: u8) -> (out: Result<(), PortOp>)
        ensures
            ran(setting_pwm(iobase, fan, pct), old(r).remaining(), final(r).remaining(), out),
    {
        let raw: u8 = raw_duty(floored(pct, 20));
        Self::write(r, iobase, 0x1020u16.wrapping_add(fan as u16), 0xFF)?;
        Self::write(r, iobase, 0x1000u16.wrapping_add(fan as u16), raw)
    }

    /// Hands a fan back to automatic control.
    pub fn reset_pwm(r: &mut Ports, iobase: u16, fan: usize) -> (out: Result<(), PortOp>)
        ensures
            ran(resetting_pwm(iobase, fan), old(r).remaining(), final(r).remaining(), out),
    {
        Self::write(r, iobase, 0x1020u16.wrapping_add(fan as u16), 0x00)
    }
}

} // verus!
