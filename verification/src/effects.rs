//! What a chip holds after an operation on one of its fans, and what it shows.
//!
//! The chips are described here by their data sheets alone: which registers there are, and what
//! the bytes in them stand for.
use vstd::prelude::*;

use crate::fintek;
use crate::guarantees::lemma_fan_ids;
use crate::ite;
use crate::nct6687;
use crate::nuvoton;
use crate::ports::{PortOp, PortTalk};
use crate::session::converse;
use crate::superio::{ChipFamily, SuperIoChip};
use crate::system::{
    resetting, resetting_chip_pwm, saving_first, saving_mode, setting_chip_pwm, setting_speed,
    SystemError, SystemView,
};
use crate::text::digits;

verus! {

/// A register: its bank, its page or the high byte of its address, and its number.
pub type Cell = (u8, u8);

/// A chip behind its ports.
pub struct Chip {
    /// What was written last to the fourth port after the base port.
    pub page: u8,
    /// What was written last to the fifth port.
    pub index: u8,
    /// What was written last to register 0x4E of a chip with banks.
    pub bank: u8,
    /// The registers. One that is missing here cannot be read.
    pub values: Map<Cell, u8>,
}

/// The register that is selected.
pub open spec fn selected(family: ChipFamily, chip: Chip) -> Cell {
    match family {
        ChipFamily::Nuvoton => (chip.bank, chip.index),
        ChipFamily::Ite => (0, chip.index),
        ChipFamily::Nct6687 | ChipFamily::Fintek => (chip.page, chip.index),
    }
}

/// Whether the bank is selected in place of a register.
pub open spec fn selects_bank(family: ChipFamily, chip: Chip) -> bool {
    family == ChipFamily::Nuvoton && chip.index == 0x4E
}

/// How a chip at `iobase` reacts to a port access.
pub open spec fn behaving(family: ChipFamily, iobase: u16) -> spec_fn(Chip, PortOp) -> (
    Chip,
    Option<u8>,
) {
    |chip: Chip, op: PortOp|
        match op {
            PortOp::Write { port, value } => if port == (iobase + 4) % 0x10000 {
                (Chip { page: value, ..chip }, None)
            } else if port == (iobase + 5) % 0x10000 {
                (Chip { index: value, ..chip }, None)
            } else if port == (iobase + 6) % 0x10000 {
                if selects_bank(family, chip) {
                    (Chip { bank: value, ..chip }, None)
                } else {
                    (
                        Chip { values: chip.values.insert(selected(family, chip), value), ..chip },
                        None,
                    )
                }
            } else {
                (chip, None)
            },
            PortOp::Read { port } => if port != (iobase + 6) % 0x10000 {
                (chip, None)
            } else if selects_bank(family, chip) {
                (chip, Some(chip.bank))
            } else {
                (chip, held(chip.values, selected(family, chip)))
            },
        }
}

/// What a register holds, if it can be read.
pub open spec fn held(values: Map<Cell, u8>, cell: Cell) -> Option<u8> {
    if values.contains_key(cell) {
        Some(values[cell])
    } else {
        None
    }
}

/// The register at a 16-bit address.
pub open spec fn at(address: int) -> Cell {
    (((address / 256) % 256) as u8, (address % 256) as u8)
}

/// The bank of a modern Nuvoton chip that drives a fan; it has them for seven fans.
pub open spec fn modern_bank(fan: int) -> u8 {
    if fan < 3 {
        (fan + 1) as u8
    } else {
        (fan + 5) as u8
    }
}

/// Whether a chip has registers that drive the fan of this number.
pub open spec fn has_fan(chip: SuperIoChip, fan: usize) -> bool {
    chip.family == ChipFamily::Nuvoton && chip.modern ==> fan < 7
}

/// The register that takes a fan's duty cycle.
pub open spec fn duty_cell(chip: SuperIoChip, fan: usize) -> Cell {
    match chip.family {
        ChipFamily::Nuvoton => if chip.modern {
            (modern_bank(fan as int), 9)
        } else {
            (((fan + 1) % 256) as u8, 9)
        },
        ChipFamily::Nct6687 => at((0x1000 + fan) % 0x10000),
        ChipFamily::Ite => (0, ((0x6B + fan) % 256) as u8),
        ChipFamily::Fintek => (0, ((0xAA + 16 * fan) % 256) as u8),
    }
}

/// The register that holds a fan's control mode; on an ITE chip it is shared by all fans.
pub open spec fn mode_cell(chip: SuperIoChip, fan: usize) -> Cell {
    match chip.family {
        ChipFamily::Nuvoton => if chip.modern {
            (modern_bank(fan as int), 2)
        } else {
            (((fan + 1) % 256) as u8, 2)
        },
        ChipFamily::Nct6687 => at((0x1020 + fan) % 0x10000),
        ChipFamily::Ite => (0, 0x15),
        ChipFamily::Fintek => (0, ((0xA2 + 16 * fan) % 256) as u8),
    }
}

/// The duty cycle that stands for 100 percent.
pub open spec fn full_duty(chip: SuperIoChip) -> int {
    if chip.family == ChipFamily::Ite {
        127
    } else {
        255
    }
}

/// Whether bit number `n` of a byte is set.
pub open spec fn has_bit(byte: u8, n: int) -> bool {
    if n == 5 {
        (byte / 32) % 2 == 1
    } else if n == 6 {
        (byte / 64) % 2 == 1
    } else {
        byte / 128 == 1
    }
}

/// Whether two bytes agree in all bits but perhaps bit number `n`, which is 5, 6 or 7.
pub open spec fn agree_but(a: u8, b: u8, n: int) -> bool {
    &&& a % 32 == b % 32
    &&& n != 5 ==> has_bit(a, 5) == has_bit(b, 5)
    &&& n != 6 ==> has_bit(a, 6) == has_bit(b, 6)
    &&& n != 7 ==> has_bit(a, 7) == has_bit(b, 7)
}

/// Whether the control mode `now` is the manual one of a fan, where `before` was in its register.
pub open spec fn is_manual(
    chip: SuperIoChip,
    fan: usize,
    before: Option<u8>,
    now: Option<u8>,
) -> bool {
    match chip.family {
        ChipFamily::Nuvoton => now == Some(0u8),
        ChipFamily::Nct6687 => now == Some(0xFFu8),
        ChipFamily::Fintek => match before {
            Some(old) => now matches Some(mode) && mode / 4 == old / 4 && mode % 4 == 1,
            None => now is None,
        },
        ChipFamily::Ite => match before {
            Some(old) => now matches Some(mode) && if fan < 3 {
                !has_bit(mode, 5 + fan) && agree_but(mode, old, 5 + fan)
            } else {
                mode == old
            },
            None => now is None,
        },
    }
}

/// Whether the control mode `now` is the automatic one of a fan, where `before` was in its
/// register and `saved` is the mode that was saved.
pub open spec fn is_automatic(
    chip: SuperIoChip,
    fan: usize,
    saved: Option<u8>,
    before: Option<u8>,
    now: Option<u8>,
) -> bool {
    match chip.family {
        ChipFamily::Nuvoton => match saved {
            Some(mode) => now == Some(mode),
            None => now == Some(
                if chip.modern {
                    4u8
                } else {
                    3u8
                },
            ),
        },
        ChipFamily::Nct6687 => now == Some(0u8),
        ChipFamily::Fintek => match before {
            Some(old) => now matches Some(mode) && mode / 4 == old / 4 && mode % 4 == 3,
            None => now is None,
        },
        ChipFamily::Ite => match before {
            Some(old) => now matches Some(mode) && if fan < 3 {
                has_bit(mode, 5 + fan) && agree_but(mode, old, 5 + fan)
            } else {
                mode == old
            },
            None => now is None,
        },
    }
}

/// Whether a duty cycle is the one of a speed in percent: the largest that does not go above it.
pub open spec fn is_duty_of(raw: u8, full: int, pct: u8) -> bool {
    if pct >= 100 {
        raw == full
    } else {
        raw * 100 <= pct * full < (raw + 1) * 100
    }
}

/// Whether all registers but these two are as they were.
pub open spec fn same_but(
    before: Map<Cell, u8>,
    after: Map<Cell, u8>,
    one: Cell,
    other: Cell,
) -> bool {
    forall|c: Cell| c != one && c != other ==> #[trigger] held(after, c) == held(before, c)
}

pub(crate) proof fn lemma_nuvoton_access(chip: Chip, iobase: u16, bank: u8, reg: u8, val: u8)
    requires
        reg != 0x4E,
    ensures
        ({
            let respond = behaving(ChipFamily::Nuvoton, iobase);
            let (read, byte) = converse(nuvoton::reading_reg(iobase, bank, reg), chip, respond);
            let written = converse(nuvoton::writing_reg(iobase, bank, reg, val), chip, respond).0;
            &&& read.values == chip.values
            &&& byte == held(chip.values, (bank, reg))
            &&& written.values == chip.values.insert((bank, reg), val)
        }),
{
    broadcast use crate::session::group_converse;

}

pub(crate) proof fn lemma_ite_access(chip: Chip, iobase: u16, reg: u8, val: u8)
    ensures
        ({
            let respond = behaving(ChipFamily::Ite, iobase);
            let (read, byte) = converse(ite::reading_reg(iobase, reg), chip, respond);
            let written = converse(ite::writing_reg(iobase, reg, val), chip, respond).0;
            &&& read.values == chip.values
            &&& byte == held(chip.values, (0, reg))
            &&& written.values == chip.values.insert((0, reg), val)
        }),
{
    broadcast use crate::session::group_converse;

}

pub(crate) proof fn lemma_fintek_access(chip: Chip, iobase: u16, reg: u8, val: u8)
    ensures
        ({
            let respond = behaving(ChipFamily::Fintek, iobase);
            let (read, byte) = converse(fintek::reading_reg(iobase, 0, reg), chip, respond);
            let written = converse(fintek::writing_reg(iobase, 0, reg, val), chip, respond).0;
            &&& read.values == chip.values
            &&& byte == held(chip.values, (0, reg))
            &&& written.values == chip.values.insert((0, reg), val)
        }),
{
    broadcast use crate::session::group_converse;

}

pub(crate) proof fn lemma_nct6687_access(chip: Chip, iobase: u16, reg: u16, val: u8)
    ensures
        ({
            let respond = behaving(ChipFamily::Nct6687, iobase);
            let (read, byte) = converse(nct6687::reading_reg(iobase, reg), chip, respond);
            let written = converse(nct6687::writing_reg(iobase, reg, val), chip, respond).0;
            &&& read.values == chip.values
            &&& byte == held(chip.values, at(reg as int))
            &&& written.values == chip.values.insert(at(reg as int), val)
        }),
{
    broadcast use crate::session::group_converse;

}

proof fn lemma_truncated(fan: usize)
    ensures
        fan as u8 == fan % 256,
        fan as u16 == fan % 0x10000,
        nuvoton::legacy_bank(fan) == (fan + 1) % 256,
{
    assert(fan as u8 == fan % 256) by (bit_vector);
    assert(fan as u16 == fan % 0x10000) by (bit_vector);
    let next = fan.wrapping_add(1);
    assert(next as u8 == next % 256) by (bit_vector);
    if fan == usize::MAX {
        assert(usize::MAX == 0xFFFF_FFFF || usize::MAX == 0xFFFF_FFFF_FFFF_FFFF);
    }
}

proof fn lemma_ite_numbers(fan: usize)
    ensures
        ite::duty_reg(fan) == (0x6B + fan) % 256,
{
    lemma_truncated(fan);
    vstd::arithmetic::div_mod::lemma_add_mod_noop_right(0x6B, fan as int, 256);
    let x = fan as u8;
    assert(ite::duty_reg(fan) == (0x6B + x) % 256);
}

proof fn lemma_nct6687_numbers(fan: usize)
    ensures
        nct6687::duty_reg(fan) == (0x1000 + fan) % 0x10000,
        nct6687::mode_reg(fan) == (0x1020 + fan) % 0x10000,
{
    lemma_truncated(fan);
    vstd::arithmetic::div_mod::lemma_add_mod_noop_right(0x1000, fan as int, 0x10000);
    vstd::arithmetic::div_mod::lemma_add_mod_noop_right(0x1020, fan as int, 0x10000);
    let x = fan as u16;
    assert(nct6687::duty_reg(fan) == (0x1000 + x) % 0x10000);
    assert(nct6687::mode_reg(fan) == (0x1020 + x) % 0x10000);
}

proof fn lemma_fintek_number(first: u8, fan: usize)
    ensures
        fintek::fan_reg(first, fan) == (first + 16 * fan) % 256,
{
    lemma_truncated(fan);
    let x = fan as u8;
    let q = fan / 256;
    assert(fan == 256 * q + x);
    assert(16 * fan == 256 * (16 * q) + 16 * x);
    let y = x.wrapping_mul(0x10);
    assert(y == (16 * x) % 256);
    let z = (16 * x) / 256;
    assert(16 * fan == 256 * (16 * q + z) + y);
    assert((first + 16 * fan) % 256 == (first + y) % 256) by {
        vstd::arithmetic::div_mod::lemma_mod_multiples_vanish(16 * q + z, first + y, 256);
    }
}

/// A register that is written holds what was written, and the others what they held.
proof fn lemma_written(values: Map<Cell, u8>, cell: Cell, val: u8)
    ensures
        forall|c: Cell| #[trigger]
            held(values.insert(cell, val), c) == if c == cell {
                Some(val)
            } else {
                held(values, c)
            },
{
}

proof fn lemma_raw_duties(pct: u8)
    requires
        pct >= 20,
    ensures
        is_duty_of(nuvoton::duty_raw(pct), 255, pct),
        is_duty_of(ite::duty_raw(pct), 127, pct),
{
}

proof fn lemma_bit_masks(byte: u8)
    ensures
        byte / 32 % 2 == 1 ==> byte >= 32,
        byte / 64 % 2 == 1 ==> byte >= 64,
        byte / 128 % 2 == 1 ==> byte >= 128,
        byte / 128 % 2 == byte / 128,
{
}

/// Whether these are the registers after a fan was set to a speed in percent: its duty cycle is
/// that speed's, it is in manual mode, and all else is as it was. A chip without registers for
/// the fan is unchanged.
pub open spec fn is_set(
    chip: SuperIoChip,
    fan: usize,
    level: u8,
    before: Map<Cell, u8>,
    after: Map<Cell, u8>,
) -> bool {
    if !has_fan(chip, fan) {
        after == before
    } else {
        &&& held(after, duty_cell(chip, fan)) matches Some(raw) && is_duty_of(
            raw,
            full_duty(chip),
            level,
        )
        &&& duty_cell(chip, fan) != mode_cell(chip, fan) ==> is_manual(
            chip,
            fan,
            held(before, mode_cell(chip, fan)),
            held(after, mode_cell(chip, fan)),
        )
        &&& same_but(before, after, duty_cell(chip, fan), mode_cell(chip, fan))
    }
}

proof fn lemma_nuvoton_set(chip: SuperIoChip, fan: usize, level: u8, regs: Chip)
    requires
        chip.family == ChipFamily::Nuvoton,
        level >= 20,
    ensures
        ({
            let after = converse(
                setting_chip_pwm(chip, fan, level),
                regs,
                behaving(chip.family, chip.iobase),
            ).0;
            is_set(chip, fan, level, regs.values, after.values)
        }),
{
    lemma_truncated(fan);
    lemma_raw_duties(level);
    let respond = behaving(chip.family, chip.iobase);
    if has_fan(chip, fan) {
        let mode = mode_cell(chip, fan);
        let duty = duty_cell(chip, fan);
        let raw = nuvoton::duty_raw(level);
        let first = nuvoton::writing_reg(chip.iobase, mode.0, mode.1, 0);
        let second = nuvoton::writing_reg(chip.iobase, duty.0, duty.1, raw);
        let between = converse(first, regs, respond).0;
        lemma_nuvoton_access(regs, chip.iobase, mode.0, mode.1, 0);
        lemma_nuvoton_access(between, chip.iobase, duty.0, duty.1, raw);
        lemma_one_after_the_other(first, second, regs, respond);
        assert(setting_chip_pwm(chip, fan, level) == first.followed_by(second));
    } else {
        assert(setting_chip_pwm(chip, fan, level) == PortTalk::End(()));
        reveal_with_fuel(converse, 2);
    }
}

proof fn lemma_one_after_the_other<T>(
    first: PortTalk<()>,
    second: PortTalk<T>,
    regs: Chip,
    respond: spec_fn(Chip, PortOp) -> (Chip, Option<u8>),
)
    ensures
        converse(first.followed_by(second), regs, respond) == converse(
            second,
            converse(first, regs, respond).0,
            respond,
        ),
{
    broadcast use crate::session::group_converse;

}

proof fn lemma_nct6687_set(chip: SuperIoChip, fan: usize, level: u8, regs: Chip)
    requires
        chip.family == ChipFamily::Nct6687,
        level >= 20,
    ensures
        ({
            let after = converse(
                setting_chip_pwm(chip, fan, level),
                regs,
                behaving(chip.family, chip.iobase),
            ).0;
            is_set(chip, fan, level, regs.values, after.values)
        }),
{
    lemma_nct6687_numbers(fan);
    lemma_raw_duties(level);
    let respond = behaving(chip.family, chip.iobase);
    let (mode, duty) = (nct6687::mode_reg(fan), nct6687::duty_reg(fan));
    let raw = nuvoton::duty_raw(level);
    let first = nct6687::writing_reg(chip.iobase, mode, 0xFF);
    let second = nct6687::writing_reg(chip.iobase, duty, raw);
    lemma_nct6687_access(regs, chip.iobase, mode, 0xFF);
    lemma_nct6687_access(converse(first, regs, respond).0, chip.iobase, duty, raw);
    lemma_one_after_the_other(first, second, regs, respond);
    assert(setting_chip_pwm(chip, fan, level) == first.followed_by(second));
}

proof fn lemma_ite_set(chip: SuperIoChip, fan: usize, level: u8, regs: Chip)
    requires
        chip.family == ChipFamily::Ite,
        level >= 20,
    ensures
        ({
            let after = converse(
                setting_chip_pwm(chip, fan, level),
                regs,
                behaving(chip.family, chip.iobase),
            ).0;
            is_set(chip, fan, level, regs.values, after.values)
        }),
{
    lemma_ite_numbers(fan);
    lemma_raw_duties(level);
    let respond = behaving(chip.family, chip.iobase);
    let raw = ite::duty_raw(level);
    let first = ite::leaving_auto(chip.iobase, fan);
    let second = ite::writing_reg(chip.iobase, ite::duty_reg(fan), raw);
    let between = converse(first, regs, respond).0;
    lemma_ite_leaves_auto(chip, fan, regs);
    lemma_ite_access(between, chip.iobase, ite::duty_reg(fan), raw);
    lemma_written(between.values, duty_cell(chip, fan), raw);
    let after = converse(second, between, respond).0;
    assert(same_but(regs.values, after.values, duty_cell(chip, fan), mode_cell(chip, fan))) by {
        assert forall|c: Cell|
            c != duty_cell(chip, fan) && c != mode_cell(chip, fan) implies #[trigger] held(
            after.values,
            c,
        ) == held(regs.values, c) by {
            assert(held(between.values, c) == held(regs.values, c));
        }
    }
    lemma_one_after_the_other(first, second, regs, respond);
    assert(setting_chip_pwm(chip, fan, level) == first.followed_by(second));
}

proof fn lemma_ite_leaves_auto(chip: SuperIoChip, fan: usize, regs: Chip)
    requires
        chip.family == ChipFamily::Ite,
    ensures
        ({
            let after = converse(
                ite::leaving_auto(chip.iobase, fan),
                regs,
                behaving(chip.family, chip.iobase),
            ).0;
            &&& is_manual(chip, fan, held(regs.values, (0, 0x15)), held(after.values, (0, 0x15)))
            &&& forall|c: Cell|
                c != (0u8, 0x15u8) ==> #[trigger] held(after.values, c) == held(regs.values, c)
        }),
{
    broadcast use crate::session::group_converse;

    let respond = behaving(chip.family, chip.iobase);
    lemma_ite_access(regs, chip.iobase, 0x15, 0);
    let read = converse(ite::reading_reg(chip.iobase, 0x15), regs, respond).0;
    if let (Some(bit), Some(old)) = (ite::auto_bit(fan), held(regs.values, (0, 0x15))) {
        lemma_ite_access(read, chip.iobase, 0x15, ite::without_bit(old, bit));
        lemma_bit_masks(old);
    }
}

proof fn lemma_fintek_changes_mode(
    chip: SuperIoChip,
    fan: usize,
    change: spec_fn(u8) -> u8,
    regs: Chip,
)
    requires
        chip.family == ChipFamily::Fintek,
    ensures
        ({
            let after = converse(
                fintek::changing_mode(chip.iobase, fan, change),
                regs,
                behaving(chip.family, chip.iobase),
            ).0;
            let cell = mode_cell(chip, fan);
            &&& held(after.values, cell) == (match held(regs.values, cell) {
                Some(old) => Some(change(old)),
                None => None,
            })
            &&& forall|c: Cell|
                c != cell ==> #[trigger] held(after.values, c) == held(regs.values, c)
        }),
{
    broadcast use crate::session::group_converse;

    lemma_fintek_number(0xA2, fan);
    let respond = behaving(chip.family, chip.iobase);
    let reg = fintek::fan_reg(0xA2, fan);
    lemma_fintek_access(regs, chip.iobase, reg, 0);
    let read = converse(fintek::reading_reg(chip.iobase, 0, reg), regs, respond).0;
    if let Some(old) = held(regs.values, (0, reg)) {
        lemma_fintek_access(read, chip.iobase, reg, change(old));
    }
}

proof fn lemma_fintek_cells_differ(fan: usize)
    ensures
        (0xA2 + 16 * fan) % 256 != (0xAA + 16 * fan) % 256,
{
    let r = (16 * fan) % 256;
    vstd::arithmetic::div_mod::lemma_add_mod_noop_right(0xA2, 16 * fan, 256);
    vstd::arithmetic::div_mod::lemma_add_mod_noop_right(0xAA, 16 * fan, 256);
    assert((0xA2 + r) % 256 != (0xAA + r) % 256);
}

proof fn lemma_fintek_modes(mode: u8)
    ensures
        fintek::manual_mode(mode) / 4 == mode / 4,
        fintek::manual_mode(mode) % 4 == 1,
        fintek::auto_mode(mode) / 4 == mode / 4,
        fintek::auto_mode(mode) % 4 == 3,
{
}

proof fn lemma_fintek_set(chip: SuperIoChip, fan: usize, level: u8, regs: Chip)
    requires
        chip.family == ChipFamily::Fintek,
        level >= 20,
    ensures
        ({
            let after = converse(
                setting_chip_pwm(chip, fan, level),
                regs,
                behaving(chip.family, chip.iobase),
            ).0;
            is_set(chip, fan, level, regs.values, after.values)
        }),
{
    lemma_fintek_number(0xAA, fan);
    lemma_fintek_cells_differ(fan);
    lemma_raw_duties(level);
    let respond = behaving(chip.family, chip.iobase);
    let raw = nuvoton::duty_raw(level);
    let reg = fintek::fan_reg(0xAA, fan);
    let (duty, mode) = (duty_cell(chip, fan), mode_cell(chip, fan));
    let first = fintek::changing_mode(chip.iobase, fan, |m: u8| fintek::manual_mode(m));
    let second = fintek::writing_reg(chip.iobase, 0, reg, raw);
    lemma_fintek_changes_mode(chip, fan, |m: u8| fintek::manual_mode(m), regs);
    let between = converse(first, regs, respond).0;
    lemma_fintek_access(between, chip.iobase, reg, raw);
    lemma_written(between.values, duty, raw);
    let after = converse(second, between, respond).0;
    assert(after.values == between.values.insert(duty, raw));
    assert forall|c: Cell| c != duty && c != mode implies #[trigger] held(after.values, c) == held(
        regs.values,
        c,
    ) by {
        assert(held(between.values, c) == held(regs.values, c));
    }
    if let Some(old) = held(regs.values, mode) {
        lemma_fintek_modes(old);
    }
    assert(held(after.values, mode) == held(between.values, mode));
    lemma_one_after_the_other(first, second, regs, respond);
    assert(setting_chip_pwm(chip, fan, level) == first.followed_by(second));
}

/// Whether these are the registers after a fan was handed back: it is in automatic mode, and all
/// else is as it was.
pub open spec fn is_reset(
    chip: SuperIoChip,
    fan: usize,
    saved: Option<u8>,
    before: Map<Cell, u8>,
    after: Map<Cell, u8>,
) -> bool {
    if !has_fan(chip, fan) {
        after == before
    } else {
        &&& is_automatic(
            chip,
            fan,
            saved,
            held(before, mode_cell(chip, fan)),
            held(after, mode_cell(chip, fan)),
        )
        &&& same_but(before, after, mode_cell(chip, fan), mode_cell(chip, fan))
    }
}

proof fn lemma_nuvoton_reset(chip: SuperIoChip, fan: usize, saved: Option<u8>, regs: Chip)
    requires
        chip.family == ChipFamily::Nuvoton,
    ensures
        ({
            let after = converse(
                resetting_chip_pwm(chip, fan, saved),
                regs,
                behaving(chip.family, chip.iobase),
            ).0;
            is_reset(chip, fan, saved, regs.values, after.values)
        }),
{
    lemma_truncated(fan);
    if has_fan(chip, fan) {
        let mode = mode_cell(chip, fan);
        let value = match saved {
            Some(m) => m,
            None => if chip.modern {
                4u8
            } else {
                3u8
            },
        };
        lemma_nuvoton_access(regs, chip.iobase, mode.0, mode.1, value);
        lemma_written(regs.values, mode, value);
        assert(resetting_chip_pwm(chip, fan, saved) == nuvoton::writing_reg(
            chip.iobase,
            mode.0,
            mode.1,
            value,
        ));
    } else {
        assert(resetting_chip_pwm(chip, fan, saved) == PortTalk::End(()));
        reveal_with_fuel(converse, 2);
    }
}

proof fn lemma_nct6687_reset(chip: SuperIoChip, fan: usize, saved: Option<u8>, regs: Chip)
    requires
        chip.family == ChipFamily::Nct6687,
    ensures
        ({
            let after = converse(
                resetting_chip_pwm(chip, fan, saved),
                regs,
                behaving(chip.family, chip.iobase),
            ).0;
            is_reset(chip, fan, saved, regs.values, after.values)
        }),
{
    lemma_nct6687_numbers(fan);
    lemma_nct6687_access(regs, chip.iobase, nct6687::mode_reg(fan), 0);
    lemma_written(regs.values, mode_cell(chip, fan), 0);
    assert(resetting_chip_pwm(chip, fan, saved) == nct6687::writing_reg(
        chip.iobase,
        nct6687::mode_reg(fan),
        0,
    ));
}

proof fn lemma_ite_reset(chip: SuperIoChip, fan: usize, saved: Option<u8>, regs: Chip)
    requires
        chip.family == ChipFamily::Ite,
    ensures
        ({
            let after = converse(
                resetting_chip_pwm(chip, fan, saved),
                regs,
                behaving(chip.family, chip.iobase),
            ).0;
            is_reset(chip, fan, saved, regs.values, after.values)
        }),
{
    broadcast use crate::session::group_converse;

    let respond = behaving(chip.family, chip.iobase);
    lemma_ite_access(regs, chip.iobase, 0x15, 0);
    let read = converse(ite::reading_reg(chip.iobase, 0x15), regs, respond).0;
    if let (Some(bit), Some(old)) = (ite::auto_bit(fan), held(regs.values, (0, 0x15))) {
        lemma_ite_access(read, chip.iobase, 0x15, ite::with_bit(old, bit));
        lemma_written(regs.values, (0, 0x15), ite::with_bit(old, bit));
        lemma_bit_masks(old);
    }
}

proof fn lemma_fintek_reset(chip: SuperIoChip, fan: usize, saved: Option<u8>, regs: Chip)
    requires
        chip.family == ChipFamily::Fintek,
    ensures
        ({
            let after = converse(
                resetting_chip_pwm(chip, fan, saved),
                regs,
                behaving(chip.family, chip.iobase),
            ).0;
            is_reset(chip, fan, saved, regs.values, after.values)
        }),
{
    lemma_fintek_changes_mode(chip, fan, |m: u8| fintek::auto_mode(m), regs);
    if let Some(old) = held(regs.values, mode_cell(chip, fan)) {
        lemma_fintek_modes(old);
    }
    assert(resetting_chip_pwm(chip, fan, saved) == fintek::changing_mode(
        chip.iobase,
        fan,
        |m: u8| fintek::auto_mode(m),
    ));
}

/// The modes that are saved once a fan was set: that of a modern Nuvoton chip's fan, as it was
/// before the first time.
pub open spec fn modes_after_set(
    chip: SuperIoChip,
    fan: usize,
    saved: Map<usize, u8>,
    values: Map<Cell, u8>,
) -> Map<usize, u8> {
    if chip.family == ChipFamily::Nuvoton && chip.modern && fan < 7 && !saved.contains_key(fan)
        && values.contains_key(mode_cell(chip, fan)) {
        saved.insert(fan, values[mode_cell(chip, fan)])
    } else {
        saved
    }
}

proof fn lemma_saves(chip: SuperIoChip, fan: usize, saved: Map<usize, u8>, regs: Chip)
    ensures
        ({
            let (after, now) = converse(
                saving_mode(chip, saved, fan),
                regs,
                behaving(chip.family, chip.iobase),
            );
            after.values == regs.values && now == modes_after_set(chip, fan, saved, regs.values)
        }),
{
    broadcast use crate::session::group_converse;

    if chip.family == ChipFamily::Nuvoton && chip.modern && fan < 7 {
        let mode = mode_cell(chip, fan);
        lemma_nuvoton_access(regs, chip.iobase, mode.0, mode.1, 0);
        assert(nuvoton::reading_ctrl_mode(chip.iobase, fan) == nuvoton::reading_reg(
            chip.iobase,
            mode.0,
            mode.1,
        ));
    }
}

proof fn lemma_saving_first(
    saving: PortTalk<Map<usize, u8>>,
    setting: PortTalk<()>,
    regs: Chip,
    respond: spec_fn(Chip, PortOp) -> (Chip, Option<u8>),
)
    ensures
        converse(saving_first(saving, setting), regs, respond) == ({
            let (read, saved) = converse(saving, regs, respond);
            (converse(setting, read, respond).0, (Ok::<(), SystemError>(()), saved))
        }),
{
    broadcast use crate::session::group_converse;

}

/// Setting the fan of a number in an identifier succeeds and sets that fan, on a chip of any
/// family, to the speed that was asked for, or to 20 percent where less was asked for.
pub proof fn lemma_set_speed(
    b: SystemView,
    chip: SuperIoChip,
    fan: usize,
    pct: u8,
    regs: Chip,
)
    requires
        b.ring0,
        b.chip == Some(chip),
    ensures
        ({
            let (after, out) = converse(
                setting_speed(b, "sio:"@ + digits(fan as nat), pct),
                regs,
                behaving(chip.family, chip.iobase),
            );
            let level = if pct < 20 {
                20
            } else {
                pct
            };
            &&& out.0 == Ok::<(), SystemError>(())
            &&& is_set(chip, fan, level, regs.values, after.values)
            &&& out.1 == modes_after_set(chip, fan, b.saved_modes, regs.values)
        }),
{
    let respond = behaving(chip.family, chip.iobase);
    let level = if pct < 20 {
        20
    } else {
        pct
    };
    let saving = saving_mode(chip, b.saved_modes, fan);
    let setting = setting_chip_pwm(chip, fan, level);
    lemma_fan_ids(fan, fan);
    assert(setting_speed(b, "sio:"@ + digits(fan as nat), pct) == saving_first(saving, setting));
    lemma_saving_first(saving, setting, regs, respond);
    lemma_saves(chip, fan, b.saved_modes, regs);
    let read = converse(saving, regs, respond).0;
    match chip.family {
        ChipFamily::Nuvoton => lemma_nuvoton_set(chip, fan, level, read),
        ChipFamily::Nct6687 => lemma_nct6687_set(chip, fan, level, read),
        ChipFamily::Ite => lemma_ite_set(chip, fan, level, read),
        ChipFamily::Fintek => lemma_fintek_set(chip, fan, level, read),
    }
}

/// Handing the fan of a number in an identifier back succeeds and puts that fan, on a chip of any
/// family, into automatic mode, and no other fan. What was saved of the fan is forgotten.
pub proof fn lemma_reset_to_auto(b: SystemView, chip: SuperIoChip, fan: usize, regs: Chip)
    requires
        b.ring0,
        b.chip == Some(chip),
    ensures
        ({
            let (after, out) = converse(
                resetting(b, "sio:"@ + digits(fan as nat)),
                regs,
                behaving(chip.family, chip.iobase),
            );
            let saved = if b.saved_modes.contains_key(fan) {
                Some(b.saved_modes[fan])
            } else {
                None
            };
            &&& out == (Ok::<(), SystemError>(()), b.saved_modes.remove(fan))
            &&& is_reset(chip, fan, saved, regs.values, after.values)
        }),
{
    let respond = behaving(chip.family, chip.iobase);
    let saved = if b.saved_modes.contains_key(fan) {
        Some(b.saved_modes[fan])
    } else {
        None
    };
    let talk = resetting_chip_pwm(chip, fan, saved);
    lemma_fan_ids(fan, fan);
    lemma_value_replaced(
        talk,
        (Ok::<(), SystemError>(()), b.saved_modes.remove(fan)),
        regs,
        respond,
    );
    match chip.family {
        ChipFamily::Nuvoton => lemma_nuvoton_reset(chip, fan, saved, regs),
        ChipFamily::Nct6687 => lemma_nct6687_reset(chip, fan, saved, regs),
        ChipFamily::Ite => lemma_ite_reset(chip, fan, saved, regs),
        ChipFamily::Fintek => lemma_fintek_reset(chip, fan, saved, regs),
    }
}

proof fn lemma_value_replaced<T>(
    talk: PortTalk<()>,
    value: T,
    regs: Chip,
    respond: spec_fn(Chip, PortOp) -> (Chip, Option<u8>),
)
    ensures
        converse(talk.followed_by(PortTalk::End(value)), regs, respond) == (
            converse(talk, regs, respond).0,
            value,
        ),
{
    broadcast use crate::session::group_converse;

}

} // verus!
