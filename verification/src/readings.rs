//! What the fans of a chip show, and how a scan lists them.
//!
//! As in [`crate::effects`], the chips are described by their data sheets alone.
use vstd::prelude::*;

use crate::effects::{
    at, behaving, duty_cell, held, lemma_fintek_access, lemma_ite_access, lemma_nct6687_access,
    lemma_nuvoton_access, lemma_set_speed, Cell, Chip,
};
use crate::fan::{lemma_pumps_among_fans, pumps, FanMode, FanType, FanView};
use crate::fintek;
use crate::ite;
use crate::nct6687;
use crate::nuvoton;
use crate::ports::{reading_as, reading_pair, PortOp, PortTalk};
use crate::session::converse;
use crate::superio::{ChipFamily, SuperIoChip};
use crate::system::{
    found_fan, reading_fans, reading_fans_from, reading_pwm, reading_rpm, scanning, scanning_fan,
    scanning_from, setting_speed, FanReading, SystemView,
};
use crate::text::digits;

verus! {

/// The two registers of a fan's count, if the chip has them.
pub open spec fn count_cells(chip: SuperIoChip, fan: int) -> Option<(Cell, Cell)> {
    match chip.family {
        ChipFamily::Nuvoton => if !chip.modern {
            Some((at(0x28 + 2 * fan), at(0x29 + 2 * fan)))
        } else if fan < 6 {
            Some((at(0x4B0 + 2 * fan), at(0x4B1 + 2 * fan)))
        } else if fan == 6 {
            Some((at(0x4CC), at(0x4CD)))
        } else {
            None
        },
        ChipFamily::Nct6687 => Some((at(0x1400 + 2 * fan), at(0x1401 + 2 * fan))),
        ChipFamily::Ite => if fan < 3 {
            Some((at(0x0D + fan), at(0x18 + fan)))
        } else if fan < 5 {
            Some((at(0x7A + 2 * fan), at(0x7B + 2 * fan)))
        } else {
            None
        },
        ChipFamily::Fintek => Some((at((0xA0 + 16 * fan) % 256), at((0xA1 + 16 * fan) % 256))),
    }
}

/// The register that shows a fan's duty cycle, if the chip has one.
pub open spec fn output_cell(chip: SuperIoChip, fan: int) -> Option<Cell> {
    match chip.family {
        ChipFamily::Nuvoton => if !chip.modern {
            Some(at(256 * (fan + 1) + 9))
        } else if fan < 2 {
            Some(at(1 + 2 * fan))
        } else if fan < 5 {
            Some(at(0x0D + 2 * fan))
        } else if fan < 7 {
            Some(at(256 * (fan + 5) + 9))
        } else {
            None
        },
        ChipFamily::Nct6687 => Some(at(0x1000 + fan)),
        ChipFamily::Ite => Some(at(0x6B + fan)),
        ChipFamily::Fintek => Some(at((0xAA + 16 * fan) % 256)),
    }
}

/// The count that two bytes hold, or zero for a fan that stands still or is missing.
pub open spec fn count_in(chip: SuperIoChip, hi: u8, lo: u8) -> int {
    let word = hi * 256 + lo;
    match chip.family {
        ChipFamily::Nuvoton => if chip.modern {
            let count = hi * 32 + lo % 32;
            if count == 8191 || count < 21 {
                0
            } else {
                count
            }
        } else if word == 65535 {
            0
        } else {
            word % 4096
        },
        ChipFamily::Nct6687 => if word % 8192 == 8191 {
            0
        } else {
            word % 8192
        },
        ChipFamily::Ite | ChipFamily::Fintek => if word == 65535 {
            0
        } else {
            word
        },
    }
}

/// How much a chip counts in a minute at one revolution.
pub open spec fn clock(chip: SuperIoChip) -> int {
    match chip.family {
        ChipFamily::Nuvoton | ChipFamily::Nct6687 => 1_350_000,
        ChipFamily::Ite | ChipFamily::Fintek => 1_500_000,
    }
}

/// Whether `rpm` is the speed that a fan's registers show; there is none where a register is
/// missing or cannot be read.
pub open spec fn shows_rpm(
    chip: SuperIoChip,
    values: Map<Cell, u8>,
    fan: int,
    rpm: Option<u32>,
) -> bool {
    match count_cells(chip, fan) {
        None => rpm is None,
        Some((first, second)) => match (held(values, first), held(values, second)) {
            (Some(hi), Some(lo)) => rpm matches Some(v) && {
                let count = count_in(chip, hi, lo);
                if count == 0 {
                    v == 0
                } else {
                    v > 0 && v * count <= clock(chip) < (v + 1) * count
                }
            },
            _ => rpm is None,
        },
    }
}

/// Whether `pct` is the duty cycle in percent that a fan's register shows.
pub open spec fn shows_pct(
    chip: SuperIoChip,
    values: Map<Cell, u8>,
    fan: int,
    pct: Option<u8>,
) -> bool {
    let full = if chip.family == ChipFamily::Ite {
        127
    } else {
        255int
    };
    match output_cell(chip, fan) {
        None => pct is None,
        Some(cell) => match held(values, cell) {
            None => pct is None,
            Some(raw) => pct matches Some(p) && if raw >= full {
                p == 100
            } else {
                p * full <= raw * 100 < (p + 1) * full
            },
        },
    }
}

proof fn lemma_pair(
    first: PortTalk<Option<u8>>,
    second: PortTalk<Option<u8>>,
    decode: spec_fn(u8, u8) -> u32,
    regs: Chip,
    respond: spec_fn(Chip, PortOp) -> (Chip, Option<u8>),
)
    ensures
        converse(reading_pair(first, second, decode), regs, respond) == ({
            let (between, hi) = converse(first, regs, respond);
            let (after, lo) = converse(second, between, respond);
            match (hi, lo) {
                (None, _) => (between, None),
                (_, None) => (after, None),
                (Some(h), Some(l)) => (after, Some(decode(h, l))),
            }
        }),
{
    broadcast use crate::session::group_converse;

}

proof fn lemma_as(
    first: PortTalk<Option<u8>>,
    decode: spec_fn(u8) -> u8,
    regs: Chip,
    respond: spec_fn(Chip, PortOp) -> (Chip, Option<u8>),
)
    ensures
        converse(reading_as(first, decode), regs, respond) == ({
            let (after, byte) = converse(first, regs, respond);
            match byte {
                None => (after, None),
                Some(b) => (after, Some(decode(b))),
            }
        }),
{
    broadcast use crate::session::group_converse;

}

/// The quotient of the clock by a count.
proof fn lemma_quotient(clock: int, count: int)
    requires
        0 < count <= clock,
    ensures
        0 < clock / count <= clock,
        (clock / count) * count <= clock < (clock / count + 1) * count,
{
    vstd::arithmetic::div_mod::lemma_fundamental_div_mod(clock, count);
    let q = clock / count;
    assert(clock == count * q + clock % count);
    assert((q + 1) * count == count * q + count) by (nonlinear_arith);
    assert(q * count == count * q) by (nonlinear_arith);
    assert(q > 0) by (nonlinear_arith)
        requires
            clock == count * q + clock % count,
            0 <= clock % count < count,
            count <= clock,
            count > 0,
    ;
    assert(q <= clock) by (nonlinear_arith)
        requires
            q * count <= clock,
            count >= 1,
            q > 0,
    ;
}

proof fn lemma_speeds(chip: SuperIoChip, hi: u8, lo: u8)
    ensures
        ({
            let v = match chip.family {
                ChipFamily::Nuvoton => if chip.modern {
                    nuvoton::modern_rpm(hi, lo)
                } else {
                    nuvoton::legacy_rpm(hi, lo)
                },
                ChipFamily::Nct6687 => nct6687::count_rpm(hi, lo),
                ChipFamily::Ite => ite::count_rpm(hi, lo),
                ChipFamily::Fintek => fintek::count_rpm(hi, lo),
            };
            let count = count_in(chip, hi, lo);
            if count == 0 {
                v == 0
            } else {
                v > 0 && v * count <= clock(chip) < (v + 1) * count
            }
        }),
{
    let count = count_in(chip, hi, lo);
    if count != 0 {
        lemma_quotient(clock(chip), count);
    }
}

proof fn lemma_percents(raw: u8)
    ensures
        ({
            let p = nuvoton::duty_pct(raw);
            if raw == 255 {
                p == 100
            } else {
                p * 255 <= raw * 100 < (p + 1) * 255
            }
        }),
        fintek::duty_pct(raw) == nuvoton::duty_pct(raw),
        ({
            let p = ite::duty_pct(raw);
            if raw >= 127 {
                p == 100
            } else {
                p * 127 <= raw * 100 < (p + 1) * 127
            }
        }),
{
}

/// Reading a fan's speed and duty cycle gives what its registers show, and changes nothing.
pub proof fn lemma_reads(b: SystemView, chip: SuperIoChip, fan: usize, regs: Chip)
    requires
        b.ring0,
        b.chip == Some(chip),
        fan < 16,
    ensures
        ({
            let respond = behaving(chip.family, chip.iobase);
            let (after, rpm) = converse(reading_rpm(b, fan), regs, respond);
            after.values == regs.values && shows_rpm(chip, regs.values, fan as int, rpm)
        }),
        ({
            let respond = behaving(chip.family, chip.iobase);
            let (after, pct) = converse(reading_pwm(b, fan), regs, respond);
            after.values == regs.values && shows_pct(chip, regs.values, fan as int, pct)
        }),
{
    match chip.family {
        ChipFamily::Nuvoton => lemma_nuvoton_reads(b, chip, fan, regs),
        ChipFamily::Nct6687 => lemma_nct6687_reads(b, chip, fan, regs),
        ChipFamily::Ite => lemma_ite_reads(b, chip, fan, regs),
        ChipFamily::Fintek => lemma_fintek_reads(b, chip, fan, regs),
    }
}

spec fn reads(b: SystemView, chip: SuperIoChip, fan: usize, regs: Chip) -> bool {
    let respond = behaving(chip.family, chip.iobase);
    let (after_rpm, rpm) = converse(reading_rpm(b, fan), regs, respond);
    let (after_pct, pct) = converse(reading_pwm(b, fan), regs, respond);
    &&& after_rpm.values == regs.values
    &&& shows_rpm(chip, regs.values, fan as int, rpm)
    &&& after_pct.values == regs.values
    &&& shows_pct(chip, regs.values, fan as int, pct)
}

proof fn lemma_nuvoton_reads(b: SystemView, chip: SuperIoChip, fan: usize, regs: Chip)
    requires
        b.ring0 && b.chip == Some(chip) && fan < 16,
        chip.family == ChipFamily::Nuvoton,
    ensures
        reads(b, chip, fan, regs),
{
    lemma_nuvoton_reads_rpm(b, chip, fan, regs);
    lemma_nuvoton_reads_pct(b, chip, fan, regs);
}

#[verifier::spinoff_prover]
#[verifier::rlimit(40)]
proof fn lemma_nuvoton_reads_rpm(b: SystemView, chip: SuperIoChip, fan: usize, regs: Chip)
    requires
        b.ring0 && b.chip == Some(chip) && fan < 16,
        chip.family == ChipFamily::Nuvoton,
    ensures
        ({
            let respond = behaving(chip.family, chip.iobase);
            let (after, rpm) = converse(reading_rpm(b, fan), regs, respond);
            after.values == regs.values && shows_rpm(chip, regs.values, fan as int, rpm)
        }),
{
    let respond = behaving(chip.family, chip.iobase);
    if let Some((hi, lo)) = count_cells(chip, fan as int) {
        let first = nuvoton::reading_reg(chip.iobase, hi.0, hi.1);
        let second = nuvoton::reading_reg(chip.iobase, lo.0, lo.1);
        let between = converse(first, regs, respond).0;
        assert(hi.1 != 0x4E && lo.1 != 0x4E);
        lemma_nuvoton_access(regs, chip.iobase, hi.0, hi.1, 0);
        lemma_nuvoton_access(between, chip.iobase, lo.0, lo.1, 0);
        let decode = if chip.modern {
            |h: u8, l: u8| nuvoton::modern_rpm(h, l)
        } else {
            |h: u8, l: u8| nuvoton::legacy_rpm(h, l)
        };
        lemma_pair(first, second, decode, regs, respond);
        if let (Some(h), Some(l)) = (held(regs.values, hi), held(regs.values, lo)) {
            lemma_speeds(chip, h, l);
        }
        assert(reading_rpm(b, fan) == reading_pair(first, second, decode));
    } else {
        assert(reading_rpm(b, fan) == PortTalk::End(None::<u32>));
        reveal_with_fuel(converse, 2);
    }
}

#[verifier::spinoff_prover]
#[verifier::rlimit(40)]
proof fn lemma_nuvoton_reads_pct(b: SystemView, chip: SuperIoChip, fan: usize, regs: Chip)
    requires
        b.ring0 && b.chip == Some(chip) && fan < 16,
        chip.family == ChipFamily::Nuvoton,
    ensures
        ({
            let respond = behaving(chip.family, chip.iobase);
            let (after, pct) = converse(reading_pwm(b, fan), regs, respond);
            after.values == regs.values && shows_pct(chip, regs.values, fan as int, pct)
        }),
{
    let respond = behaving(chip.family, chip.iobase);
    if let Some(cell) = output_cell(chip, fan as int) {
        let first = nuvoton::reading_reg(chip.iobase, cell.0, cell.1);
        assert(cell.1 != 0x4E);
        lemma_nuvoton_access(regs, chip.iobase, cell.0, cell.1, 0);
        lemma_as(first, |raw: u8| nuvoton::duty_pct(raw), regs, respond);
        if let Some(raw) = held(regs.values, cell) {
            lemma_percents(raw);
        }
        assert(reading_pwm(b, fan) == reading_as(first, |raw: u8| nuvoton::duty_pct(raw)));
    } else {
        assert(reading_pwm(b, fan) == PortTalk::End(None::<u8>));
        reveal_with_fuel(converse, 2);
    }
}

proof fn lemma_nct6687_reads(b: SystemView, chip: SuperIoChip, fan: usize, regs: Chip)
    requires
        b.ring0 && b.chip == Some(chip) && fan < 16,
        chip.family == ChipFamily::Nct6687,
    ensures
        reads(b, chip, fan, regs),
{
    let respond = behaving(chip.family, chip.iobase);
    let reg = (0x1400 + 2 * fan) as u16;
    let first = nct6687::reading_reg(chip.iobase, reg);
    let second = nct6687::reading_reg(chip.iobase, (reg + 1) as u16);
    lemma_nct6687_access(regs, chip.iobase, reg, 0);
    lemma_nct6687_access(converse(first, regs, respond).0, chip.iobase, (reg + 1) as u16, 0);
    let decode = |h: u8, l: u8| nct6687::count_rpm(h, l);
    lemma_pair(first, second, decode, regs, respond);
    if let (Some(h), Some(l)) = (
        held(regs.values, at(reg as int)),
        held(regs.values, at(reg + 1)),
    ) {
        lemma_speeds(chip, h, l);
    }
    assert(reading_rpm(b, fan) == reading_pair(first, second, decode));
    let duty = (0x1000 + fan) as u16;
    lemma_nct6687_access(regs, chip.iobase, duty, 0);
    let shown = nct6687::reading_reg(chip.iobase, duty);
    lemma_as(shown, |raw: u8| nuvoton::duty_pct(raw), regs, respond);
    if let Some(raw) = held(regs.values, at(duty as int)) {
        lemma_percents(raw);
    }
    assert(reading_pwm(b, fan) == reading_as(shown, |raw: u8| nuvoton::duty_pct(raw)));
}

proof fn lemma_ite_reads(b: SystemView, chip: SuperIoChip, fan: usize, regs: Chip)
    requires
        b.ring0 && b.chip == Some(chip) && fan < 16,
        chip.family == ChipFamily::Ite,
    ensures
        reads(b, chip, fan, regs),
{
    let respond = behaving(chip.family, chip.iobase);
    if let Some((hi, lo)) = count_cells(chip, fan as int) {
        let first = ite::reading_reg(chip.iobase, hi.1);
        let second = ite::reading_reg(chip.iobase, lo.1);
        lemma_ite_access(regs, chip.iobase, hi.1, 0);
        lemma_ite_access(converse(first, regs, respond).0, chip.iobase, lo.1, 0);
        let decode = |h: u8, l: u8| ite::count_rpm(h, l);
        lemma_pair(first, second, decode, regs, respond);
        if let (Some(h), Some(l)) = (held(regs.values, hi), held(regs.values, lo)) {
            lemma_speeds(chip, h, l);
        }
        assert(reading_rpm(b, fan) == reading_pair(first, second, decode));
    } else {
        assert(reading_rpm(b, fan) == PortTalk::End(None::<u32>));
        reveal_with_fuel(converse, 2);
    }
    let reg = (0x6B + fan) as u8;
    let shown = ite::reading_reg(chip.iobase, reg);
    lemma_ite_access(regs, chip.iobase, reg, 0);
    lemma_as(shown, |raw: u8| ite::duty_pct(raw), regs, respond);
    if let Some(raw) = held(regs.values, (0, reg)) {
        lemma_percents(raw);
    }
    assert(reading_pwm(b, fan) == reading_as(shown, |raw: u8| ite::duty_pct(raw)));
}

proof fn lemma_fintek_reads(b: SystemView, chip: SuperIoChip, fan: usize, regs: Chip)
    requires
        b.ring0 && b.chip == Some(chip) && fan < 16,
        chip.family == ChipFamily::Fintek,
    ensures
        reads(b, chip, fan, regs),
{
    let respond = behaving(chip.family, chip.iobase);
    let reg = ((0xA0 + 16 * fan) % 256) as u8;
    let next = ((0xA1 + 16 * fan) % 256) as u8;
    let first = fintek::reading_reg(chip.iobase, 0, reg);
    let second = fintek::reading_reg(chip.iobase, 0, next);
    lemma_fintek_access(regs, chip.iobase, reg, 0);
    lemma_fintek_access(converse(first, regs, respond).0, chip.iobase, next, 0);
    let decode = |h: u8, l: u8| fintek::count_rpm(h, l);
    lemma_pair(first, second, decode, regs, respond);
    if let (Some(h), Some(l)) = (held(regs.values, (0, reg)), held(regs.values, (0, next))) {
        lemma_speeds(chip, h, l);
    }
    assert(fintek::fan_reg(0xA0, fan) == reg);
    assert(reg.wrapping_add(1) == next);
    assert(reading_rpm(b, fan) == reading_pair(first, second, decode));
    let duty = ((0xAA + 16 * fan) % 256) as u8;
    let shown = fintek::reading_reg(chip.iobase, 0, duty);
    lemma_fintek_access(regs, chip.iobase, duty, 0);
    lemma_as(shown, |raw: u8| fintek::duty_pct(raw), regs, respond);
    if let Some(raw) = held(regs.values, (0, duty)) {
        lemma_percents(raw);
    }
    assert(fintek::fan_reg(0xAA, fan) == duty);
    assert(reading_pwm(b, fan) == reading_as(shown, |raw: u8| fintek::duty_pct(raw)));
}

/// How many of the listed fans are pumps, or are none.
pub open spec fn marked(fans: Seq<FanView>, as_pump: bool) -> nat
    decreases fans.len(),
{
    if fans.len() == 0 {
        0
    } else {
        marked(fans.drop_last(), as_pump) + if fans.last().is_pump == as_pump {
            1nat
        } else {
            0nat
        }
    }
}

/// Whether entry `k` of a list is what the registers show of fan number `fan`. A pump turns
/// faster than 2500 at more than 90 percent; pumps and other fans are each counted from one.
pub open spec fn is_listed_as(
    chip: SuperIoChip,
    values: Map<Cell, u8>,
    fans: Seq<FanView>,
    k: int,
    fan: int,
) -> bool {
    let f = fans[k];
    &&& f.id == "sio:"@ + digits(fan as nat)
    &&& f.label == (if f.is_pump {
        "Pump "@ + digits(marked(fans.take(k + 1), true))
    } else {
        "Fan "@ + digits(marked(fans.take(k + 1), false))
    })
    &&& shows_rpm(chip, values, fan, f.rpm)
    &&& f.rpm matches Some(rpm) && rpm > 0
    &&& shows_pct(chip, values, fan, f.speed_pct)
    &&& f.is_pump == (f.rpm->0 > 2500 && f.speed_pct is Some && f.speed_pct->0 > 90)
    &&& f.controllable
    &&& f.fan_type == FanType::System
    &&& f.mode == FanMode::Auto
    &&& f.temperature is None
    &&& f.rpm_min == Some(0u32)
    &&& f.rpm_max is None
}

/// Whether the list holds the fans below `count` that turn, each once, in the order of their
/// numbers, and no others.
pub open spec fn lists_turning(
    chip: SuperIoChip,
    values: Map<Cell, u8>,
    fans: Seq<FanView>,
    numbers: Seq<int>,
    count: int,
) -> bool {
    &&& numbers.len() == fans.len()
    &&& forall|i: int, j: int| 0 <= i < j < numbers.len() ==> numbers[i] < numbers[j]
    &&& forall|k: int|
        #![trigger numbers[k]]
        0 <= k < numbers.len() ==> 0 <= numbers[k] < count && is_listed_as(
            chip,
            values,
            fans,
            k,
            numbers[k],
        )
    &&& forall|n: int, rpm: u32|
        0 <= n < count && rpm > 0 && #[trigger] shows_rpm(chip, values, n, Some(rpm))
            ==> numbers.contains(n)
}

/// Whether the list is that of the fans below `count` that turn.
pub open spec fn is_list_of_turning(
    chip: SuperIoChip,
    values: Map<Cell, u8>,
    fans: Seq<FanView>,
    count: int,
) -> bool {
    exists|numbers: Seq<int>| #[trigger] lists_turning(chip, values, fans, numbers, count)
}

/// A scan lists exactly the fans of the chip that turn, and of each what its registers show.
pub proof fn lemma_scan_is_complete(b: SystemView, chip: SuperIoChip, regs: Chip)
    requires
        b.ring0,
        b.chip == Some(chip),
        chip.fan_count <= 16,
    ensures
        ({
            let (after, fans) = converse(
                scanning(b),
                regs,
                behaving(chip.family, chip.iobase),
            );
            &&& after.values == regs.values
            &&& is_list_of_turning(chip, regs.values, fans, chip.fan_count as int)
        }),
{
    assert(lists_turning(chip, regs.values, seq![], seq![], 0));
    lemma_scan_from(b, chip, seq![], 0, seq![], regs);
}

proof fn lemma_scan_step(
    b: SystemView,
    found: Seq<FanView>,
    fan: usize,
    regs: Chip,
    respond: spec_fn(Chip, PortOp) -> (Chip, Option<u8>),
)
    ensures
        converse(scanning_fan(b, found, fan), regs, respond) == ({
            let (one, rpm) = converse(reading_rpm(b, fan), regs, respond);
            match rpm {
                Some(v) if v > 0 => {
                    let (two, judged) = if v > 2500 {
                        converse(reading_pwm(b, fan), one, respond)
                    } else {
                        (one, None)
                    };
                    let (three, pct) = converse(reading_pwm(b, fan), two, respond);
                    let is_pump = judged matches Some(p) && p > 90;
                    (three, found.push(found_fan(found, fan, v, is_pump, pct)))
                },
                _ => (one, found),
            }
        }),
{
    broadcast use crate::session::lemma_converse_bind;

}

proof fn lemma_scan_first(
    b: SystemView,
    count: usize,
    found: Seq<FanView>,
    fan: usize,
    regs: Chip,
    respond: spec_fn(Chip, PortOp) -> (Chip, Option<u8>),
)
    requires
        fan < count,
    ensures
        converse(scanning_from(b, count, found, fan), regs, respond) == ({
            let (after, more) = converse(scanning_fan(b, found, fan), regs, respond);
            converse(scanning_from(b, count, more, (fan + 1) as usize), after, respond)
        }),
{
    broadcast use crate::session::lemma_converse_bind;

}

/// What registers show of a fan is one value.
proof fn lemma_one_reading(
    chip: SuperIoChip,
    values: Map<Cell, u8>,
    fan: int,
    one: Option<u32>,
    other: Option<u32>,
    pct: Option<u8>,
    other_pct: Option<u8>,
)
    ensures
        shows_rpm(chip, values, fan, one) && shows_rpm(chip, values, fan, other) ==> one == other,
        shows_pct(chip, values, fan, pct) && shows_pct(chip, values, fan, other_pct) ==> pct
            == other_pct,
{
    if shows_rpm(chip, values, fan, one) && shows_rpm(chip, values, fan, other) {
        if let Some((first, second)) = count_cells(chip, fan) {
            if let (Some(hi), Some(lo)) = (held(values, first), held(values, second)) {
                let count = count_in(chip, hi, lo);
                let (v, w) = (one->0 as int, other->0 as int);
                if count != 0 && v != w {
                    assert(v == w) by (nonlinear_arith)
                        requires
                            count > 0,
                            v * count < (w + 1) * count,
                            w * count < (v + 1) * count,
                    ;
                }
            }
        }
    }
}

/// Every listed fan is a pump or none.
pub proof fn lemma_marked(fans: Seq<FanView>)
    ensures
        marked(fans, true) == pumps(fans),
        marked(fans, true) + marked(fans, false) == fans.len(),
    decreases fans.len(),
{
    if fans.len() > 0 {
        lemma_marked(fans.drop_last());
    }
}

proof fn lemma_scan_from(
    b: SystemView,
    chip: SuperIoChip,
    found: Seq<FanView>,
    fan: usize,
    numbers: Seq<int>,
    regs: Chip,
)
    requires
        b.ring0,
        b.chip == Some(chip),
        fan <= chip.fan_count <= 16,
        lists_turning(chip, regs.values, found, numbers, fan as int),
    ensures
        ({
            let (after, fans) = converse(
                scanning_from(b, chip.fan_count, found, fan),
                regs,
                behaving(chip.family, chip.iobase),
            );
            &&& after.values == regs.values
            &&& is_list_of_turning(chip, regs.values, fans, chip.fan_count as int)
        }),
    decreases chip.fan_count - fan,
{
    let respond = behaving(chip.family, chip.iobase);
    let values = regs.values;
    if fan < chip.fan_count {
        lemma_scan_first(b, chip.fan_count, found, fan, regs, respond);
        lemma_scan_step(b, found, fan, regs, respond);
        lemma_reads(b, chip, fan, regs);
        let (one, rpm) = converse(reading_rpm(b, fan), regs, respond);
        lemma_reads(b, chip, fan, one);
        let (after, more) = converse(scanning_fan(b, found, fan), regs, respond);
        assert forall|v: u32| #[trigger] shows_rpm(chip, values, fan as int, Some(v)) implies rpm
            == Some(v) by {
            lemma_one_reading(chip, values, fan as int, rpm, Some(v), None, None);
        }
        if rpm is Some && rpm->0 > 0 {
            let v = rpm->0;
            let (two, judged) = if v > 2500 {
                converse(reading_pwm(b, fan), one, respond)
            } else {
                (one, None)
            };
            lemma_reads(b, chip, fan, two);
            let (three, pct) = converse(reading_pwm(b, fan), two, respond);
            lemma_one_reading(chip, values, fan as int, None, None, judged, pct);
            let longer = numbers.push(fan as int);
            lemma_marked(found);
            lemma_pumps_among_fans(found);
            let is_pump = judged matches Some(p) && p > 90;
            assert((after, more) == (three, found.push(found_fan(found, fan, v, is_pump, pct))));
            assert(more.drop_last() =~= found);
            assert(more.take(found.len() as int + 1) =~= more);
            assert(is_listed_as(chip, values, more, found.len() as int, fan as int));
            lemma_longer_list(chip, values, found, more, numbers, fan as int);
            lemma_scan_from(b, chip, more, (fan + 1) as usize, longer, after);
            let (last, fans) = converse(
                scanning_from(b, chip.fan_count, more, (fan + 1) as usize),
                after,
                respond,
            );
            assert(is_list_of_turning(chip, values, fans, chip.fan_count as int));
        } else {
            assert((after, more) == (one, found));
            assert(lists_turning(chip, values, found, numbers, fan + 1));
            lemma_scan_from(b, chip, found, (fan + 1) as usize, numbers, after);
            let (last, fans) = converse(
                scanning_from(b, chip.fan_count, more, (fan + 1) as usize),
                after,
                respond,
            );
            assert(is_list_of_turning(chip, values, fans, chip.fan_count as int));
        }
    } else {
        assert(scanning_from(b, chip.fan_count, found, fan) == PortTalk::End(found));
        assert(converse(PortTalk::End(found), regs, respond) == (regs, found)) by {
            reveal_with_fuel(converse, 2);
        }
        assert(lists_turning(chip, values, found, numbers, chip.fan_count as int));
        assert(is_list_of_turning(chip, values, found, chip.fan_count as int));
    }
}

proof fn lemma_longer_list(
    chip: SuperIoChip,
    values: Map<Cell, u8>,
    found: Seq<FanView>,
    more: Seq<FanView>,
    numbers: Seq<int>,
    fan: int,
)
    requires
        fan >= 0,
        lists_turning(chip, values, found, numbers, fan),
        more.len() == found.len() + 1,
        more.drop_last() == found,
        is_listed_as(chip, values, more, found.len() as int, fan),
    ensures
        lists_turning(chip, values, more, numbers.push(fan), fan + 1),
{
    let longer = numbers.push(fan);
    assert forall|k: int| #![trigger longer[k]] 0 <= k < longer.len() implies 0 <= longer[k] < fan
        + 1 && is_listed_as(chip, values, more, k, longer[k]) by {
        if k < numbers.len() {
            assert(longer[k] == numbers[k]);
            assert(is_listed_as(chip, values, found, k, numbers[k]));
            assert(more[k] == found[k]);
            assert(more.take(k + 1) =~= found.take(k + 1));
        }
    }
    assert forall|n: int, rpm: u32|
        0 <= n < fan + 1 && rpm > 0 && #[trigger] shows_rpm(
            chip,
            values,
            n,
            Some(rpm),
        ) implies longer.contains(n) by {
        if n < fan {
            assert(numbers.contains(n));
            let i = choose|i: int| 0 <= i < numbers.len() && numbers[i] == n;
            assert(longer[i] == n);
        } else {
            assert(longer[numbers.len() as int] == fan);
        }
    }
}

/// After a fan was set, the chip shows the speed that was asked for, with at most one percent
/// missing, or 20 percent where less was asked for: on any family, where the duty cycle is shown
/// in the register that takes it.
pub proof fn lemma_set_speed_is_shown(
    b: SystemView,
    chip: SuperIoChip,
    fan: usize,
    pct: u8,
    regs: Chip,
)
    requires
        b.ring0,
        b.chip == Some(chip),
        fan < 16,
        pct <= 100,
        output_cell(chip, fan as int) == Some(duty_cell(chip, fan)),
    ensures
        ({
            let respond = behaving(chip.family, chip.iobase);
            let set = converse(
                setting_speed(b, "sio:"@ + digits(fan as nat), pct),
                regs,
                respond,
            ).0;
            let level = if pct < 20 {
                20
            } else {
                pct
            };
            converse(reading_pwm(b, fan), set, respond).1 matches Some(shown) && shown <= level
                <= shown + 1
        }),
{
    let respond = behaving(chip.family, chip.iobase);
    let set = converse(setting_speed(b, "sio:"@ + digits(fan as nat), pct), regs, respond).0;
    lemma_set_speed(b, chip, fan, pct, regs);
    lemma_reads(b, chip, fan, set);
}

/// All fans of a chip but the first five of a modern Nuvoton chip show their duty cycle in the
/// register that takes it.
pub proof fn lemma_where_speeds_are_shown(chip: SuperIoChip, fan: usize)
    requires
        fan < 16,
        chip.family == ChipFamily::Nuvoton && chip.modern ==> fan == 5 || fan == 6,
    ensures
        output_cell(chip, fan as int) == Some(duty_cell(chip, fan)),
{
}

/// What a diagnosis reads of a chip's fans is what the registers of each show, in order.
pub proof fn lemma_diagnosis_of_fans(chip: SuperIoChip, regs: Chip)
    requires
        chip.fan_count <= 16,
    ensures
        ({
            let (after, read) = converse(
                reading_fans(Some(chip)),
                regs,
                behaving(chip.family, chip.iobase),
            );
            &&& after.values == regs.values
            &&& read.len() == chip.fan_count
            &&& forall|i: int|
                0 <= i < read.len() ==> shows_rpm(chip, regs.values, i, (#[trigger] read[i]).rpm)
                    && shows_pct(chip, regs.values, i, read[i].pwm)
        }),
{
    let b = SystemView { ring0: true, chip: Some(chip), saved_modes: Map::empty() };
    lemma_diagnosis_from(b, chip, seq![], 0, regs);
}

proof fn lemma_diagnosis_first(
    b: SystemView,
    count: usize,
    read: Seq<FanReading>,
    fan: usize,
    regs: Chip,
    respond: spec_fn(Chip, PortOp) -> (Chip, Option<u8>),
)
    requires
        fan < count,
    ensures
        converse(reading_fans_from(b, count, read, fan), regs, respond) == ({
            let (one, rpm) = converse(reading_rpm(b, fan), regs, respond);
            let (two, pwm) = converse(reading_pwm(b, fan), one, respond);
            converse(
                reading_fans_from(
                    b,
                    count,
                    read.push(FanReading { rpm, pwm }),
                    (fan + 1) as usize,
                ),
                two,
                respond,
            )
        }),
{
    broadcast use crate::session::lemma_converse_bind;

}

proof fn lemma_diagnosis_from(
    b: SystemView,
    chip: SuperIoChip,
    read: Seq<FanReading>,
    fan: usize,
    regs: Chip,
)
    requires
        b.ring0,
        b.chip == Some(chip),
        fan <= chip.fan_count <= 16,
        read.len() == fan,
        forall|i: int|
            0 <= i < read.len() ==> shows_rpm(chip, regs.values, i, (#[trigger] read[i]).rpm)
                && shows_pct(chip, regs.values, i, read[i].pwm),
    ensures
        ({
            let (after, all) = converse(
                reading_fans_from(b, chip.fan_count, read, fan),
                regs,
                behaving(chip.family, chip.iobase),
            );
            &&& after.values == regs.values
            &&& all.len() == chip.fan_count
            &&& forall|i: int|
                0 <= i < all.len() ==> shows_rpm(chip, regs.values, i, (#[trigger] all[i]).rpm)
                    && shows_pct(chip, regs.values, i, all[i].pwm)
        }),
    decreases chip.fan_count - fan,
{
    let respond = behaving(chip.family, chip.iobase);
    if fan < chip.fan_count {
        lemma_diagnosis_first(b, chip.fan_count, read, fan, regs, respond);
        lemma_reads(b, chip, fan, regs);
        let (one, rpm) = converse(reading_rpm(b, fan), regs, respond);
        lemma_reads(b, chip, fan, one);
        let (two, pwm) = converse(reading_pwm(b, fan), one, respond);
        lemma_diagnosis_from(
            b,
            chip,
            read.push(FanReading { rpm, pwm }),
            (fan + 1) as usize,
            two,
        );
    } else {
        assert(reading_fans_from(b, chip.fan_count, read, fan) == PortTalk::End(read));
        reveal_with_fuel(converse, 2);
    }
}

} // verus!
