//! ITE IT87xx hardware monitors.
//!
//! Registers are accessed directly through an index port and a data port; there are no banks.
use vstd::prelude::*;

use crate::ports::{reading, reading_as, reading_pair, writing, PortOp, PortTalk, Ports};
use crate::session::{converse, ran, Dialogue};

verus! {

broadcast use crate::session::group_replay;

/// Access to the registers of an ITE chip.
pub struct Ite;

/// Offset of the index port from the base port.
pub const IDX: u16 = 5;

/// Offset of the data port from the base port.
pub const DAT: u16 = 6;

/// The register that holds the automatic-control bit of each fan.
pub const CTRL_REG: u8 = 0x15;

/// The registers with the high and the low byte of a fan's count.
pub open spec fn count_regs(fan: usize) -> Option<(u8, u8)> {
    if fan == 0 {
        Some((0x0Du8, 0x18u8))
    } else if fan == 1 {
        Some((0x0Eu8, 0x19u8))
    } else if fan == 2 {
        Some((0x0Fu8, 0x1Au8))
    } else if fan == 3 {
        Some((0x80u8, 0x81u8))
    } else if fan == 4 {
        Some((0x82u8, 0x83u8))
    } else {
        None
    }
}

/// The register that holds a fan's duty cycle.
pub open spec fn duty_reg(fan: usize) -> u8 {
    0x6Bu8.wrapping_add(fan as u8)
}

/// The value of a fan's automatic-control bit: bits 5, 6 and 7 belong to the first three fans,
/// and the others have none.
pub open spec fn auto_bit(fan: usize) -> Option<u8> {
    if fan == 0 {
        Some(32u8)
    } else if fan == 1 {
        Some(64u8)
    } else if fan == 2 {
        Some(128u8)
    } else {
        None
    }
}

/// Whether the bit of value `bit` is set in `byte`.
pub open spec fn bit_is_set(byte: u8, bit: u8) -> bool {
    (byte / bit) % 2 == 1
}

/// `byte` with the bit of value `bit` cleared.
pub open spec fn without_bit(byte: u8, bit: u8) -> u8 {
    if bit_is_set(byte, bit) {
        (byte - bit) as u8
    } else {
        byte
    }
}

/// `byte` with the bit of value `bit` set.
pub open spec fn with_bit(byte: u8, bit: u8) -> u8 {
    if bit_is_set(byte, bit) {
        byte
    } else {
        (byte + bit) as u8
    }
}

/// The speed that a 16-bit count stands for.
pub open spec fn count_rpm(hi: u8, lo: u8) -> u32 {
    let count = hi * 256 + lo;
    if count == 0 || count >= 0xFFFF {
        0
    } else {
        (1_500_000int / count) as u32
    }
}

/// A duty cycle of 0 to 127 in percent.
pub open spec fn duty_pct(raw: u8) -> u8 {
    if raw * 100 / 127 > 100 {
        100
    } else {
        (raw * 100 / 127) as u8
    }
}

/// The duty cycle of 0 to 127 for a number of percent.
pub open spec fn duty_raw(pct: u8) -> u8 {
    if pct * 127 / 100 > 127 {
        127
    } else {
        (pct * 127 / 100) as u8
    }
}

/// Reads a register.
pub open spec fn reading_reg(iobase: u16, reg: u8) -> PortTalk<Option<u8>> {
    writing(iobase.wrapping_add(IDX), reg).followed_by(reading(iobase.wrapping_add(DAT)))
}

/// Writes a register.
pub open spec fn writing_reg(iobase: u16, reg: u8, val: u8) -> PortTalk<()> {
    writing(iobase.wrapping_add(IDX), reg).followed_by(writing(iobase.wrapping_add(DAT), val))
}

/// Reads a fan's speed; there is none for a fan without count registers.
pub open spec fn reading_rpm(iobase: u16, fan: usize) -> PortTalk<Option<u32>> {
    match count_regs(fan) {
        None => Dialogue::End(None),
        Some((hi, lo)) => reading_pair(
            reading_reg(iobase, hi),
            reading_reg(iobase, lo),
            |hi: u8, lo: u8| count_rpm(hi, lo),
        ),
    }
}

/// Reads a fan's duty cycle in percent.
pub open spec fn reading_pwm(iobase: u16, fan: usize) -> PortTalk<Option<u8>> {
    reading_as(reading_reg(iobase, duty_reg(fan)), |raw: u8| duty_pct(raw))
}

/// Reads the control register and, if it can be read, writes back what `change` makes of it.
pub open spec fn changing_ctrl(iobase: u16, change: spec_fn(u8) -> u8) -> PortTalk<()> {
    reading_reg(iobase, CTRL_REG).bind(
        |ctrl: Option<u8>|
            match ctrl {
                Some(c) => writing_reg(iobase, CTRL_REG, change(c)),
                None => Dialogue::End(()),
            },
    )
}

/// Switches automatic control of a fan off. Nothing happens to a fan without a bit for it.
pub open spec fn leaving_auto(iobase: u16, fan: usize) -> PortTalk<()> {
    match auto_bit(fan) {
        Some(bit) => changing_ctrl(iobase, |c: u8| without_bit(c, bit)),
        None => Dialogue::End(()),
    }
}

/// Switches automatic control of a fan off and sets its duty cycle. The duty cycle is set even
/// where the control register cannot be read.
pub open spec fn setting_pwm(iobase: u16, fan: usize, pct: u8) -> PortTalk<()> {
    leaving_auto(iobase, fan).followed_by(writing_reg(iobase, duty_reg(fan), duty_raw(pct)))
}

/// Switches automatic control of a fan on. Nothing happens to a fan without a bit for it.
pub open spec fn resetting_pwm(iobase: u16, fan: usize) -> PortTalk<()> {
    match auto_bit(fan) {
        Some(bit) => changing_ctrl(iobase, |c: u8| with_bit(c, bit)),
        None => Dialogue::End(()),
    }
}

/// The state of a chip behind its two ports.
pub struct Registers {
    /// The register that the index port selected.
    pub index: u8,
    pub values: Map<u8, u8>,
}

/// How a chip at `iobase` reacts to a port access.
pub open spec fn chip_at(iobase: u16) -> spec_fn(Registers, PortOp) -> (Registers, Option<u8>) {
    |chip: Registers, op: PortOp|
        match op {
            PortOp::Write { port, value } => if port == iobase.wrapping_add(IDX) {
                (Registers { index: value, ..chip }, None)
            } else if port == iobase.wrapping_add(DAT) {
                (Registers { values: chip.values.insert(chip.index, value), ..chip }, None)
            } else {
                (chip, None)
            },
            PortOp::Read { port } => if port == iobase.wrapping_add(DAT) {
                (chip, Some(chip.values[chip.index]))
            } else {
                (chip, None)
            },
        }
}

/// Writing a register sets it, and it alone.
pub proof fn lemma_write_sets(chip: Registers, iobase: u16, reg: u8, val: u8)
    ensures
        converse(writing_reg(iobase, reg, val), chip, chip_at(iobase)).0.values
            == chip.values.insert(reg, val),
{
    broadcast use crate::session::group_converse;

}

/// Reading a register gives its value and changes none.
pub proof fn lemma_read_gives(chip: Registers, iobase: u16, reg: u8)
    ensures
        converse(reading_reg(iobase, reg), chip, chip_at(iobase)).0.values == chip.values,
        converse(reading_reg(iobase, reg), chip, chip_at(iobase)).1 == Some(chip.values[reg]),
{
    broadcast use crate::session::group_converse;

}

/// Reading a fan's speed or duty cycle changes no value.
pub proof fn lemma_reading_keeps(chip: Registers, iobase: u16, fan: usize)
    ensures
        converse(reading_rpm(iobase, fan), chip, chip_at(iobase)).0.values == chip.values,
        converse(reading_pwm(iobase, fan), chip, chip_at(iobase)).0.values == chip.values,
{
    broadcast use crate::session::lemma_converse_bind;

    if let Some((hi, lo)) = count_regs(fan) {
        lemma_read_gives(chip, iobase, hi);
        let between = converse(reading_reg(iobase, hi), chip, chip_at(iobase)).0;
        lemma_read_gives(between, iobase, lo);
    }
    lemma_read_gives(chip, iobase, duty_reg(fan));
}

/// Setting a fan clears its automatic-control bit, if it has one, and sets its duty cycle, and
/// changes nothing else.
pub proof fn lemma_set_pwm(chip: Registers, iobase: u16, fan: usize, pct: u8)
    ensures
        converse(setting_pwm(iobase, fan, pct), chip, chip_at(iobase)).0.values == (match auto_bit(
            fan,
        ) {
            Some(bit) => chip.values.insert(CTRL_REG, without_bit(chip.values[CTRL_REG], bit)),
            None => chip.values,
        }).insert(duty_reg(fan), duty_raw(pct)),
{
    broadcast use crate::session::group_converse;

    if let Some(bit) = auto_bit(fan) {
        let value = without_bit(chip.values[CTRL_REG], bit);
        lemma_read_gives(chip, iobase, CTRL_REG);
        let read = converse(reading_reg(iobase, CTRL_REG), chip, chip_at(iobase)).0;
        lemma_write_sets(read, iobase, CTRL_REG, value);
    }
    let between = converse(leaving_auto(iobase, fan), chip, chip_at(iobase)).0;
    lemma_write_sets(between, iobase, duty_reg(fan), duty_raw(pct));
}

/// Handing a fan back sets its automatic-control bit, if it has one, and changes nothing else.
pub proof fn lemma_reset_pwm(chip: Registers, iobase: u16, fan: usize)
    ensures
        converse(resetting_pwm(iobase, fan), chip, chip_at(iobase)).0.values == (match auto_bit(
            fan,
        ) {
            Some(bit) => chip.values.insert(CTRL_REG, with_bit(chip.values[CTRL_REG], bit)),
            None => chip.values,
        }),
{
    broadcast use crate::session::group_converse;

    if let Some(bit) = auto_bit(fan) {
        lemma_read_gives(chip, iobase, CTRL_REG);
        let read = converse(reading_reg(iobase, CTRL_REG), chip, chip_at(iobase)).0;
        lemma_write_sets(read, iobase, CTRL_REG, with_bit(chip.values[CTRL_REG], bit));
    }
}

/// Setting a fan and handing it back never changes the automatic-control bit of another one.
pub proof fn lemma_other_fans_keep_their_bits(
    chip: Registers,
    iobase: u16,
    fan: usize,
    other: usize,
    pct: u8,
)
    requires
        other != fan,
        duty_reg(fan) != CTRL_REG,
    ensures
        auto_bit(other) matches Some(bit) ==> {
            let set = converse(setting_pwm(iobase, fan, pct), chip, chip_at(iobase)).0;
            let reset = converse(resetting_pwm(iobase, fan), chip, chip_at(iobase)).0;
            &&& bit_is_set(set.values[CTRL_REG], bit) == bit_is_set(chip.values[CTRL_REG], bit)
            &&& bit_is_set(reset.values[CTRL_REG], bit) == bit_is_set(chip.values[CTRL_REG], bit)
        },
{
    lemma_set_pwm(chip, iobase, fan, pct);
    lemma_reset_pwm(chip, iobase, fan);
    if let (Some(bit), Some(kept)) = (auto_bit(fan), auto_bit(other)) {
        lemma_bits_apart(chip.values[CTRL_REG], bit, kept);
    }
}

/// Clearing or setting a bit leaves another one as it is.
proof fn lemma_bits_apart(byte: u8, bit: u8, other: u8)
    requires
        bit == 32 || bit == 64 || bit == 128,
        other == 32 || other == 64 || other == 128,
        bit != other,
    ensures
        bit_is_set(without_bit(byte, bit), other) == bit_is_set(byte, other),
        bit_is_set(with_bit(byte, bit), other) == bit_is_set(byte, other),
{
    assert((byte / bit) % 2 == 1 ==> byte >= bit && (((byte - bit) as u8) / other) % 2 == (byte
        / other) % 2) by (bit_vector)
        requires
            bit == 32 || bit == 64 || bit == 128,
            other == 32 || other == 64 || other == 128,
            bit != other,
    ;
    assert((byte / bit) % 2 != 1 ==> byte + bit < 256 && (((byte + bit) as u8) / other) % 2 == (
    byte / other) % 2) by (bit_vector)
        requires
            bit == 32 || bit == 64 || bit == 128,
            other == 32 || other == 64 || other == 128,
            bit != other,
    ;
}

/// A fan that was under automatic control, or has no bit for it, is as it was after it was set
/// and handed back, with every other bit of the control register as it was.
pub proof fn lemma_reset_undoes_set(chip: Registers, iobase: u16, fan: usize, pct: u8)
    requires
        auto_bit(fan) matches Some(bit) ==> bit_is_set(chip.values[CTRL_REG], bit),
        duty_reg(fan) != CTRL_REG,
    ensures
        ({
            let set = converse(setting_pwm(iobase, fan, pct), chip, chip_at(iobase)).0;
            let reset = converse(resetting_pwm(iobase, fan), set, chip_at(iobase)).0;
            reset.values[CTRL_REG] == chip.values[CTRL_REG]
        }),
{
    lemma_set_pwm(chip, iobase, fan, pct);
    let set = converse(setting_pwm(iobase, fan, pct), chip, chip_at(iobase)).0;
    lemma_reset_pwm(set, iobase, fan);
}

/// The chip shows the duty cycle that was set, with at most one percent missing.
pub proof fn lemma_shows_what_was_set(chip: Registers, iobase: u16, fan: usize, pct: u8)
    requires
        pct <= 100,
    ensures
        ({
            let set = converse(setting_pwm(iobase, fan, pct), chip, chip_at(iobase)).0;
            converse(reading_pwm(iobase, fan), set, chip_at(iobase)).1 matches Some(shown)
                && shown <= pct <= shown + 1
        }),
{
    broadcast use crate::session::group_converse;

    lemma_set_pwm(chip, iobase, fan, pct);
    let set = converse(setting_pwm(iobase, fan, pct), chip, chip_at(iobase)).0;
    lemma_read_gives(set, iobase, duty_reg(fan));
    assert(duty_pct(duty_raw(pct)) <= pct <= duty_pct(duty_raw(pct)) + 1);
}

fn fan_bit(fan: usize) -> (bit: Option<u8>)
    ensures
        bit == auto_bit(fan),
{
    match fan {
        0 => Some(0x20),
        1 => Some(0x40),
        2 => Some(0x80),
        _ => None,
    }
}

fn clear_bit(byte: u8, bit: u8) -> (out: u8)
    requires
        bit == 32 || bit == 64 || bit == 128,
    ensures
        out == without_bit(byte, bit),
{
    assert(byte & !bit == if (byte / bit) % 2 == 1 {
        (byte - bit) as u8
    } else {
        byte
    }) by (bit_vector)
        requires
            bit == 32 || bit == 64 || bit == 128,
    ;
    byte & !bit
}

fn set_bit(byte: u8, bit: u8) -> (out: u8)
    requires
        bit == 32 || bit == 64 || bit == 128,
    ensures
        out == with_bit(byte, bit),
{
    assert(byte | bit == if (byte / bit) % 2 == 1 {
        byte
    } else {
        (byte + bit) as u8
    }) by (bit_vector)
        requires
            bit == 32 || bit == 64 || bit == 128,
    ;
    byte | bit
}

impl Ite {
    /// Reads register `reg`.
    pub fn read(r: &mut Ports, iobase: u16, reg: u8) -> (out: Result<Option<u8>, PortOp>)
        ensures
            ran(reading_reg(iobase, reg), old(r).remaining(), final(r).remaining(), out),
    {
        r.write_byte(iobase.wrapping_add(IDX), reg)?;
        r.read_byte(iobase.wrapping_add(DAT))
    }

    /// Writes `val` to register `reg`.
    pub fn write(r: &mut Ports, iobase: u16, reg: u8, val: u8) -> (out: Result<(), PortOp>)
        ensures
            ran(writing_reg(iobase, reg, val), old(r).remaining(), final(r).remaining(), out),
    {
        r.write_byte(iobase.wrapping_add(IDX), reg)?;
        r.write_byte(iobase.wrapping_add(DAT), val)
    }

    /// Fan speed in revolutions per minute, for the first five fans.
    pub fn read_rpm(r: &mut Ports, iobase: u16, fan: usize) -> (out: Result<Option<u32>, PortOp>)
        ensures
            ran(reading_rpm(iobase, fan), old(r).remaining(), final(r).remaining(), out),
    {
        let (hi_reg, lo_reg): (u8, u8) = match fan {
            0 => (0x0D, 0x18),
            1 => (0x0E, 0x19),
            2 => (0x0F, 0x1A),
            3 => (0x80, 0x81),
            4 => (0x82, 0x83),
            _ => return Ok(None),
        };
        let hi: u32 = match Self::read(r, iobase, hi_reg)? {
            Some(hi) => hi as u32,
            None => return Ok(None),
        };
        let lo: u32 = match Self::read(r, iobase, lo_reg)? {
            Some(lo) => lo as u32,
            None => return Ok(None),
        };
        let count: u32 = hi * 256 + lo;
        if count == 0 || count >= 0xFFFF {
            Ok(Some(0))
        } else {
            Ok(Some(1_500_000 / count))
        }
    }

    /// Current duty cycle in percent. The chip counts 0 to 127 for 0 to 100 percent.
    pub fn read_pwm(r: &mut Ports, iobase: u16, fan: usize) -> (out: Result<Option<u8>, PortOp>)
        ensures
            ran(reading_pwm(iobase, fan), old(r).remaining(), final(r).remaining(), out),
    {
        match Self::read(r, iobase, 0x6Bu8.wrapping_add(fan as u8))? {
            Some(raw) => {
                let pct: u32 = raw as u32 * 100 / 127;
                Ok(
                    Some(
                        if pct > 100 {
                            100
                        } else {
                            pct as u8
                        },
                    ),
                )
            },
            None => Ok(None),
        }
    }

    /// Switches a fan to manual mode at `pct` percent.
    pub fn set_pwm(r: &mut Ports, iobase: u16, fan: usize, pct: u8) -> (out: Result<(), PortOp>)
        ensures
            ran(setting_pwm(iobase, fan, pct), old(r).remaining(), final(r).remaining(), out),
    {
        if let Some(bit) = fan_bit(fan) {
            if let Some(ctrl) = Self::read(r, iobase, CTRL_REG)? {
                Self::write(r, iobase, CTRL_REG, clear_bit(ctrl, bit))?;
            }
        }
        let scaled: u32 = pct as u32 * 127 / 100;
        let raw: u8 = if scaled > 127 {
            127
        } else {
            scaled as u8
        };
        Self::write(r, iobase, 0x6Bu8.wrapping_add(fan as u8), raw)
    }

    /// Hands a fan back to automatic control.
    pub fn reset_pwm(r: &mut Ports, iobase: u16, fan: usize) -> (out: Result<(), PortOp>)
        ensures
            ran(resetting_pwm(iobase, fan), old(r).remaining(), final(r).remaining(), out),
    {
        if let Some(bit) = fan_bit(fan) {
            if let Some(ctrl) = Self::read(r, iobase, CTRL_REG)? {
                Self::write(r, iobase, CTRL_REG, set_bit(ctrl, bit))?;
            }
        }
        Ok(())
    }
}

} // verus!
