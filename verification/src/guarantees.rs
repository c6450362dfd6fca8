//! What holds of the fans over several operations, and of the backends side by side.
use vstd::prelude::*;

use crate::amd::{self, AmdError};
use crate::fan::{at_least, lemma_labels_differ, next_label, FanView};
use crate::fintek;
use crate::ite;
use crate::nct6687;
use crate::nuvoton::{
    self, chip_at, command_place, lemma_read_gives, lemma_reset_pwm, lemma_set_pwm, mode_place,
    Registers,
};
use crate::nvidia::{self, NvidiaError};
use crate::ports::{PortOp, PortTalk};
use crate::session::{converse, replay, requests, Outcome};
use crate::superio::{ChipFamily, SuperIoChip};
use crate::system::{
    fan_id_of, fan_number, opening, reading_fans, reading_fans_from, reading_pwm, reading_rpm,
    resetting, saving_first, saving_mode, scanning, scanning_fan, scanning_from,
    setting_chip_pwm, setting_speed, target, FanReading, SystemError, SystemView,
};
use crate::text::{
    begins_with, digits, is_digit, is_numeral, lemma_digits_numeral, lemma_digits_parse,
    lemma_prefix_comes_off,
};

verus! {

/// The identifier of a fan names that fan, and different fans have different identifiers.
pub proof fn lemma_fan_ids(fan: usize, other: usize)
    ensures
        fan_number(fan_id_of(fan)) == Ok::<usize, SystemError>(fan),
        fan != other ==> fan_id_of(fan) != fan_id_of(other),
{
    lemma_fan_id(fan);
    lemma_fan_id(other);
}

proof fn lemma_fan_id(fan: usize)
    ensures
        fan_number(fan_id_of(fan)) == Ok::<usize, SystemError>(fan),
{
    reveal_strlit("sio:");
    let number = digits(fan as nat);
    lemma_digits_numeral(fan as nat);
    lemma_digits_parse(fan as nat, usize::MAX as nat);
    assert(!begins_with(number, "sio:"@)) by {
        if begins_with(number, "sio:"@) {
            assert(number.subrange(0, 4)[0] == number[0]);
        }
    }
    lemma_prefix_comes_off("sio:"@, number);
}

/// Without the driver there is no chip, and nothing is asked of the ports.
pub proof fn lemma_no_chip_without_driver(replies: Seq<Option<u8>>)
    ensures
        replay(opening(false), replies) matches Outcome::Finished { value, .. } && value.chip
            is None,
        requests(opening(false), replies).len() == 0,
{
}

/// Setting or resetting a fan that is refused asks nothing of the ports and leaves the saved
/// modes as they are.
pub proof fn lemma_refused_without_access(b: SystemView, id: Seq<char>, pct: u8)
    ensures
        target(b, id) matches Err(e) ==> {
            &&& setting_speed(b, id, pct) == PortTalk::End(
                (Err::<(), SystemError>(e), b.saved_modes),
            )
            &&& resetting(b, id) == PortTalk::End(
                (Err::<(), SystemError>(e), b.saved_modes),
            )
        },
{
}

/// A fan is never set below 20 percent: a lower speed is the same as 20 percent, whose duty
/// cycle is 51 of 255, or 25 of 127, and no higher speed has a lower duty cycle.
pub proof fn lemma_safety_floor(b: SystemView, id: Seq<char>, pct: u8)
    ensures
        pct < 20 ==> setting_speed(b, id, pct) == setting_speed(b, id, 20),
        nuvoton::duty_raw(at_least(pct, 20)) >= 51,
        nuvoton::duty_raw(20) == 51,
        ite::duty_raw(at_least(pct, 20)) >= 25,
        ite::duty_raw(20) == 25,
{
    assert(at_least(20, 20) == 20);
    if pct < 20 {
        assert(at_least(pct, 20) == 20);
    }
}

/// Whether the listed fans are those with the given numbers: they turn, can be driven, and
/// pumps and other fans are each labelled in their order.
pub open spec fn is_scan_of(fans: Seq<FanView>, numbers: Seq<usize>) -> bool {
    &&& fans.len() == numbers.len()
    &&& forall|i: int, j: int| 0 <= i < j < numbers.len() ==> numbers[i] < numbers[j]
    &&& forall|i: int| #![trigger fans[i]] 0 <= i < fans.len() ==> is_entry(fans, i, numbers[i])
}

/// Whether the fan at position `i` is listed as fan number `fan`.
pub open spec fn is_entry(fans: Seq<FanView>, i: int, fan: usize) -> bool {
    &&& fans[i].id == fan_id_of(fan)
    &&& fans[i].controllable
    &&& fans[i].rpm matches Some(rpm) && rpm > 0 && (fans[i].is_pump ==> rpm > 2500)
    &&& fans[i].label == next_label(fans.take(i), fans[i].is_pump)
}

/// Whether the listed fans are some of those with numbers below `count`.
pub open spec fn lists_fans_below(fans: Seq<FanView>, count: usize) -> bool {
    exists|numbers: Seq<usize>| #[trigger]
        is_scan_of(fans, numbers) && are_below(numbers, count)
}

/// Whether all numbers are below `count`.
pub open spec fn are_below(numbers: Seq<usize>, count: usize) -> bool {
    forall|i: int| 0 <= i < numbers.len() ==> #[trigger] numbers[i] < count
}

/// A scan lists fans of the chip, in the order of their numbers, each at most once.
pub proof fn lemma_scan(b: SystemView, replies: Seq<Option<u8>>)
    ensures
        replay(scanning(b), replies) matches Outcome::Finished { value: fans, .. } ==> {
            &&& b.chip is None ==> fans.len() == 0
            &&& b.chip matches Some(chip) ==> lists_fans_below(fans, chip.fan_count)
        },
{
    if let Some(chip) = b.chip {
        assert(is_scan_of(seq![], seq![]));
        lemma_scan_from(b, chip.fan_count, seq![], 0, seq![], replies);
    }
}

proof fn lemma_scan_from(
    b: SystemView,
    count: usize,
    found: Seq<FanView>,
    fan: usize,
    numbers: Seq<usize>,
    replies: Seq<Option<u8>>,
)
    requires
        is_scan_of(found, numbers),
        fan <= count,
        are_below(numbers, fan),
    ensures
        replay(scanning_from(b, count, found, fan), replies) matches Outcome::Finished {
            value: fans,
            ..
        } ==> lists_fans_below(fans, count),
    decreases count - fan,
{
    broadcast use crate::session::group_replay;

    if fan < count {
        if let Outcome::Finished { value: more, rest } = replay(
            scanning_fan(b, found, fan),
            replies,
        ) {
            if more == found {
                lemma_scan_from(b, count, found, (fan + 1) as usize, numbers, rest);
            } else {
                let listed = more.last();
                assert(more.drop_last() =~= found && is_entry(more, found.len() as int, fan)) by {
                    assert(more.take(found.len() as int) =~= found);
                }
                let longer = numbers.push(fan);
                assert(is_scan_of(more, longer)) by {
                    assert forall|i: int| #![trigger more[i]] 0 <= i < more.len() implies is_entry(
                        more,
                        i,
                        longer[i],
                    ) by {
                        if i < found.len() {
                            assert(is_entry(found, i, numbers[i]));
                            assert(more[i] == found[i]);
                            assert(more.take(i) =~= found.take(i));
                        }
                    }
                }
                lemma_scan_from(b, count, more, (fan + 1) as usize, longer, rest);
            }
            assert(replay(scanning_from(b, count, found, fan), replies) == replay(
                scanning_from(b, count, more, (fan + 1) as usize),
                rest,
            ));
        }
    } else {
        assert(is_scan_of(found, numbers) && are_below(numbers, count));
    }
}

/// Whether reading a fan's speed or duty cycle leaves a chip in a state that is among `kept`.
pub open spec fn reading_stays<S>(
    b: SystemView,
    respond: spec_fn(S, PortOp) -> (S, Option<u8>),
    kept: spec_fn(S) -> bool,
) -> bool {
    &&& forall|s: S, fan: usize|
        kept(s) ==> kept((#[trigger] converse(reading_rpm(b, fan), s, respond)).0)
    &&& forall|s: S, fan: usize|
        kept(s) ==> kept((#[trigger] converse(reading_pwm(b, fan), s, respond)).0)
}

proof fn lemma_scan_fan_stays<S>(
    b: SystemView,
    found: Seq<FanView>,
    fan: usize,
    chip: S,
    respond: spec_fn(S, PortOp) -> (S, Option<u8>),
    kept: spec_fn(S) -> bool,
)
    requires
        reading_stays(b, respond, kept),
        kept(chip),
    ensures
        kept(converse(scanning_fan(b, found, fan), chip, respond).0),
{
    broadcast use crate::session::lemma_converse_bind;

}

proof fn lemma_scan_stays<S>(
    b: SystemView,
    count: usize,
    found: Seq<FanView>,
    fan: usize,
    chip: S,
    respond: spec_fn(S, PortOp) -> (S, Option<u8>),
    kept: spec_fn(S) -> bool,
)
    requires
        reading_stays(b, respond, kept),
        kept(chip),
    ensures
        kept(converse(scanning_from(b, count, found, fan), chip, respond).0),
    decreases count - fan,
{
    broadcast use crate::session::lemma_converse_bind;

    if fan < count {
        lemma_scan_fan_stays(b, found, fan, chip, respond, kept);
        let (after, more) = converse(scanning_fan(b, found, fan), chip, respond);
        lemma_scan_stays(b, count, more, (fan + 1) as usize, after, respond, kept);
    }
}

proof fn lemma_readings_stay<S>(
    b: SystemView,
    count: usize,
    read: Seq<FanReading>,
    fan: usize,
    chip: S,
    respond: spec_fn(S, PortOp) -> (S, Option<u8>),
    kept: spec_fn(S) -> bool,
)
    requires
        reading_stays(b, respond, kept),
        kept(chip),
    ensures
        kept(converse(reading_fans_from(b, count, read, fan), chip, respond).0),
    decreases count - fan,
{
    broadcast use crate::session::lemma_converse_bind;

    if fan < count {
        let (between, rpm) = converse(reading_rpm(b, fan), chip, respond);
        let (after, pwm) = converse(reading_pwm(b, fan), between, respond);
        lemma_readings_stay(
            b,
            count,
            read.push(FanReading { rpm, pwm }),
            (fan + 1) as usize,
            after,
            respond,
            kept,
        );
    }
}

/// Scanning and diagnosing change no register of a Nuvoton or Winbond chip: neither a control
/// mode nor a duty cycle.
pub proof fn lemma_nuvoton_reads_only(b: SystemView, chip: SuperIoChip, regs: Registers)
    requires
        b.chip == Some(chip),
        chip.family == ChipFamily::Nuvoton,
    ensures
        converse(scanning(b), regs, chip_at(chip.iobase)).0.values == regs.values,
        converse(reading_fans(b.chip), regs, chip_at(chip.iobase)).0.values == regs.values,
{
    let respond = chip_at(chip.iobase);
    let kept = |s: Registers| s.values == regs.values;
    let open = SystemView { ring0: true, chip: b.chip, saved_modes: Map::empty() };
    assert forall|v: SystemView, s: Registers, fan: usize|
        v.chip == b.chip && kept(s) implies kept(
        (#[trigger] converse(reading_rpm(v, fan), s, respond)).0,
    ) by {
        nuvoton::lemma_reading_keeps(s, chip.iobase, fan, chip.modern);
    }
    assert forall|v: SystemView, s: Registers, fan: usize|
        v.chip == b.chip && kept(s) implies kept(
        (#[trigger] converse(reading_pwm(v, fan), s, respond)).0,
    ) by {
        nuvoton::lemma_reading_keeps(s, chip.iobase, fan, chip.modern);
    }
    lemma_scan_stays(b, chip.fan_count, seq![], 0, regs, respond, kept);
    lemma_readings_stay(open, chip.fan_count, seq![], 0, regs, respond, kept);
}

/// Scanning and diagnosing change no register of an NCT6687D or of a Fintek chip.
pub proof fn lemma_paged_reads_only(b: SystemView, chip: SuperIoChip, regs: fintek::Registers)
    requires
        b.chip == Some(chip),
        chip.family == ChipFamily::Nct6687 || chip.family == ChipFamily::Fintek,
    ensures
        converse(scanning(b), regs, fintek::chip_at(chip.iobase)).0.values == regs.values,
        converse(reading_fans(b.chip), regs, fintek::chip_at(chip.iobase)).0.values == regs.values,
{
    let respond = fintek::chip_at(chip.iobase);
    let kept = |s: fintek::Registers| s.values == regs.values;
    let open = SystemView { ring0: true, chip: b.chip, saved_modes: Map::empty() };
    assert forall|v: SystemView, s: fintek::Registers, fan: usize|
        v.chip == b.chip && kept(s) implies kept(
        (#[trigger] converse(reading_rpm(v, fan), s, respond)).0,
    ) by {
        nct6687::lemma_reading_keeps(s, chip.iobase, fan);
        fintek::lemma_reading_keeps(s, chip.iobase, fan);
    }
    assert forall|v: SystemView, s: fintek::Registers, fan: usize|
        v.chip == b.chip && kept(s) implies kept(
        (#[trigger] converse(reading_pwm(v, fan), s, respond)).0,
    ) by {
        nct6687::lemma_reading_keeps(s, chip.iobase, fan);
        fintek::lemma_reading_keeps(s, chip.iobase, fan);
    }
    lemma_scan_stays(b, chip.fan_count, seq![], 0, regs, respond, kept);
    lemma_readings_stay(open, chip.fan_count, seq![], 0, regs, respond, kept);
}

/// Scanning and diagnosing change no register of an ITE chip.
pub proof fn lemma_ite_reads_only(b: SystemView, chip: SuperIoChip, regs: ite::Registers)
    requires
        b.chip == Some(chip),
        chip.family == ChipFamily::Ite,
    ensures
        converse(scanning(b), regs, ite::chip_at(chip.iobase)).0.values == regs.values,
        converse(reading_fans(b.chip), regs, ite::chip_at(chip.iobase)).0.values == regs.values,
{
    let respond = ite::chip_at(chip.iobase);
    let kept = |s: ite::Registers| s.values == regs.values;
    let open = SystemView { ring0: true, chip: b.chip, saved_modes: Map::empty() };
    assert forall|v: SystemView, s: ite::Registers, fan: usize|
        v.chip == b.chip && kept(s) implies kept(
        (#[trigger] converse(reading_rpm(v, fan), s, respond)).0,
    ) by {
        ite::lemma_reading_keeps(s, chip.iobase, fan);
    }
    assert forall|v: SystemView, s: ite::Registers, fan: usize|
        v.chip == b.chip && kept(s) implies kept(
        (#[trigger] converse(reading_pwm(v, fan), s, respond)).0,
    ) by {
        ite::lemma_reading_keeps(s, chip.iobase, fan);
    }
    lemma_scan_stays(b, chip.fan_count, seq![], 0, regs, respond, kept);
    lemma_readings_stay(open, chip.fan_count, seq![], 0, regs, respond, kept);
}

/// Two fans of a scan differ in identifier and in label.
pub proof fn lemma_scanned_fans_differ(fans: Seq<FanView>, count: usize, i: int, j: int)
    requires
        lists_fans_below(fans, count),
        0 <= i < j < fans.len(),
    ensures
        fans[i].id != fans[j].id,
        fans[i].label != fans[j].label,
{
    let numbers = choose|numbers: Seq<usize>| #[trigger]
        is_scan_of(fans, numbers) && are_below(numbers, count);
    assert(is_entry(fans, i, numbers[i]) && is_entry(fans, j, numbers[j]));
    lemma_fan_ids(numbers[i], numbers[j]);
    lemma_labels_differ(fans, i, j);
}

/// Sets a fan to each of the given speeds in turn; ends with the backend as it is then.
pub open spec fn setting_each(b: SystemView, id: Seq<char>, speeds: Seq<u8>) -> PortTalk<
    SystemView,
>
    decreases speeds.len(),
{
    if speeds.len() == 0 {
        PortTalk::End(b)
    } else {
        setting_speed(b, id, speeds[0]).bind(
            |out: (Result<(), SystemError>, Map<usize, u8>)|
                setting_each(SystemView { saved_modes: out.1, ..b }, id, speeds.drop_first()),
        )
    }
}

/// Whether an identifier names a fan whose control mode is saved and restored: one of a Nuvoton
/// chip with the modern register map.
pub open spec fn is_restorable(b: SystemView, id: Seq<char>) -> bool {
    target(b, id) matches Ok((chip, fan)) && chip.family == ChipFamily::Nuvoton && chip.modern
        && mode_place(fan, true) is Some
}

/// The chip and the number of the fan that an identifier names.
spec fn aimed(b: SystemView, id: Seq<char>) -> (SuperIoChip, usize) {
    target(b, id)->Ok_0
}

/// Setting a fan ends with its control mode saved: the one that was saved before, or else the
/// one that the chip showed.
proof fn lemma_set_saves(b: SystemView, id: Seq<char>, pct: u8, regs: Registers)
    requires
        is_restorable(b, id),
    ensures
        ({
            let (chip, fan) = aimed(b, id);
            converse(setting_speed(b, id, pct), regs, chip_at(chip.iobase)).1.1
                == if b.saved_modes.contains_key(fan) {
                b.saved_modes
            } else {
                b.saved_modes.insert(fan, regs.values[mode_place(fan, true)->0])
            }
        }),
{
    let (chip, fan) = aimed(b, id);
    lemma_saved(chip, b.saved_modes, fan, regs);
    lemma_saving_first(
        saving_mode(chip, b.saved_modes, fan),
        setting_chip_pwm(chip, fan, at_least(pct, 20)),
        regs,
        chip_at(chip.iobase),
    );
}

/// Saving a fan's mode and setting the fan meet the chip one after the other.
proof fn lemma_saving_first(
    saving: PortTalk<Map<usize, u8>>,
    setting: PortTalk<()>,
    regs: Registers,
    respond: spec_fn(Registers, PortOp) -> (Registers, Option<u8>),
)
    ensures
        converse(saving_first(saving, setting), regs, respond) == ({
            let (read, saved) = converse(saving, regs, respond);
            (converse(setting, read, respond).0, (Ok::<(), SystemError>(()), saved))
        }),
{
    broadcast use crate::session::group_converse;

}

/// Setting a fan changes its control mode and its duty cycle only.
proof fn lemma_set_changes(b: SystemView, id: Seq<char>, pct: u8, regs: Registers)
    requires
        is_restorable(b, id),
    ensures
        ({
            let (chip, fan) = aimed(b, id);
            converse(setting_speed(b, id, pct), regs, chip_at(chip.iobase)).0.values
                == regs.values.insert(mode_place(fan, true)->0, 0x00).insert(
                command_place(fan, true)->0,
                nuvoton::duty_raw(at_least(pct, 20)),
            )
        }),
{
    let (chip, fan) = aimed(b, id);
    let respond = chip_at(chip.iobase);
    let read = converse(saving_mode(chip, b.saved_modes, fan), regs, respond).0;
    lemma_saved(chip, b.saved_modes, fan, regs);
    lemma_set_pwm(read, chip.iobase, fan, at_least(pct, 20), true);
    lemma_saving_first(
        saving_mode(chip, b.saved_modes, fan),
        setting_chip_pwm(chip, fan, at_least(pct, 20)),
        regs,
        respond,
    );
}

/// A fan's control mode ends up saved, and no register is changed by it.
proof fn lemma_saved(chip: SuperIoChip, saved: Map<usize, u8>, fan: usize, regs: Registers)
    requires
        chip.family == ChipFamily::Nuvoton && chip.modern && mode_place(fan, true) is Some,
    ensures
        converse(saving_mode(chip, saved, fan), regs, chip_at(chip.iobase)).0.values
            == regs.values,
        converse(saving_mode(chip, saved, fan), regs, chip_at(chip.iobase)).1
            == if saved.contains_key(fan) {
            saved
        } else {
            saved.insert(fan, regs.values[mode_place(fan, true)->0])
        },
{
    broadcast use crate::session::group_converse;

    let place = mode_place(fan, true)->0;
    lemma_read_gives(regs, chip.iobase, place.0, place.1);
}

/// Setting a fan to several speeds is setting it to the first, and then to the others.
proof fn lemma_set_first(
    b: SystemView,
    id: Seq<char>,
    speeds: Seq<u8>,
    regs: Registers,
    respond: spec_fn(Registers, PortOp) -> (Registers, Option<u8>),
)
    requires
        speeds.len() > 0,
    ensures
        converse(setting_each(b, id, speeds), regs, respond) == ({
            let (after, out) = converse(setting_speed(b, id, speeds[0]), regs, respond);
            converse(
                setting_each(
                    SystemView { saved_modes: out.1, ..b },
                    id,
                    speeds.drop_first(),
                ),
                after,
                respond,
            )
        }),
{
    broadcast use crate::session::lemma_converse_bind;

}

/// Setting a fan to several speeds changes its control mode and its duty cycle only.
proof fn lemma_sets_change(
    b: SystemView,
    id: Seq<char>,
    speeds: Seq<u8>,
    regs: Registers,
    place: (u8, u8),
)
    requires
        is_restorable(b, id),
        place != mode_place(aimed(b, id).1, true)->0,
        place != command_place(aimed(b, id).1, true)->0,
    ensures
        converse(
            setting_each(b, id, speeds),
            regs,
            chip_at(aimed(b, id).0.iobase),
        ).0.values[place] == regs.values[place],
    decreases speeds.len(),
{
    if speeds.len() > 0 {
        let respond = chip_at(aimed(b, id).0.iobase);
        lemma_set_first(b, id, speeds, regs, respond);
        lemma_set_changes(b, id, speeds[0], regs);
        let (after, out) = converse(setting_speed(b, id, speeds[0]), regs, respond);
        let next = SystemView { saved_modes: out.1, ..b };
        lemma_sets_change(next, id, speeds.drop_first(), after, place);
    }
}

proof fn lemma_sets_keep_saved(b: SystemView, id: Seq<char>, speeds: Seq<u8>, regs: Registers)
    requires
        is_restorable(b, id),
        b.saved_modes.contains_key(aimed(b, id).1),
    ensures
        converse(setting_each(b, id, speeds), regs, chip_at(aimed(b, id).0.iobase)).1 == b,
    decreases speeds.len(),
{
    if speeds.len() > 0 {
        let respond = chip_at(aimed(b, id).0.iobase);
        lemma_set_first(b, id, speeds, regs, respond);
        lemma_set_saves(b, id, speeds[0], regs);
        let after = converse(setting_speed(b, id, speeds[0]), regs, respond).0;
        lemma_sets_keep_saved(b, id, speeds.drop_first(), after);
    }
}

/// However often a fan was set, handing it back restores the control mode that it had before it
/// was set for the first time, and the saved mode is forgotten. All other registers but the one
/// that takes the fan's duty cycle are as they were too, among them the control modes of all
/// other fans.
pub proof fn lemma_reset_restores(b: SystemView, id: Seq<char>, speeds: Seq<u8>, regs: Registers)
    requires
        is_restorable(b, id),
        target(b, id) matches Ok((chip, fan)) && !b.saved_modes.contains_key(fan),
        speeds.len() > 0,
    ensures
        target(b, id) matches Ok((chip, fan)) && {
            let (set, b_set) = converse(
                setting_each(b, id, speeds),
                regs,
                chip_at(chip.iobase),
            );
            let (reset, out) = converse(resetting(b_set, id), set, chip_at(chip.iobase));
            let place = mode_place(fan, true)->0;
            &&& reset.values[place] == regs.values[place]
            &&& forall|p: (u8, u8)|
                p != command_place(fan, true)->0 ==> #[trigger] reset.values[p] == regs.values[p]
            &&& forall|other: usize|
                other != fan ==> (#[trigger] mode_place(other, true) matches Some(p)
                    ==> reset.values[p] == regs.values[p])
            &&& out == (Ok::<(), SystemError>(()), b.saved_modes)
        },
{
    let (chip, fan) = aimed(b, id);
    let respond = chip_at(chip.iobase);
    let place = mode_place(fan, true)->0;
    lemma_set_first(b, id, speeds, regs, respond);
    lemma_set_saves(b, id, speeds[0], regs);
    let (first, out) = converse(setting_speed(b, id, speeds[0]), regs, respond);
    let b_saved = SystemView { saved_modes: out.1, ..b };
    lemma_sets_keep_saved(b_saved, id, speeds.drop_first(), first);
    let set = converse(setting_each(b, id, speeds), regs, respond).0;
    assert(converse(setting_each(b, id, speeds), regs, respond).1 == b_saved);
    let mode = regs.values[place];
    lemma_reset_pwm(set, chip.iobase, fan, true, Some(mode));
    assert(b_saved.saved_modes.remove(fan) =~= b.saved_modes);
    assert(converse(resetting(b_saved, id), set, respond) == (
        converse(nuvoton::resetting_pwm(chip.iobase, fan, true, Some(mode)), set, respond).0,
        (Ok::<(), SystemError>(()), b.saved_modes),
    )) by {
        broadcast use crate::session::group_converse;

    }
    let reset = converse(resetting(b_saved, id), set, respond).0;
    assert forall|p: (u8, u8)| p != command_place(fan, true)->0 implies #[trigger] reset.values[p]
        == regs.values[p] by {
        if p != place {
            lemma_sets_change(b, id, speeds, regs, p);
        }
    }
}

/// No backend takes the identifier of another one's fan for one of its own.
pub proof fn lemma_backends_apart(fan: usize, gpu: u32, gpu_fan: u32, adapter: i32)
    ensures
        amd::adapter_number(fan_id_of(fan)) == Err::<i32, AmdError>(AmdError::NotAmd),
        nvidia::fan_numbers(fan_id_of(fan)) == Err::<(u32, u32), NvidiaError>(
            NvidiaError::NotNvidia,
        ),
        fan_number(nvidia::fan_id_of(gpu, gpu_fan)) == Err::<usize, SystemError>(
            SystemError::NotSuperIo,
        ),
        amd::adapter_number(nvidia::fan_id_of(gpu, gpu_fan)) == Err::<i32, AmdError>(
            AmdError::NotAmd,
        ),
        fan_number(amd::fan_id_of(adapter)) == Err::<usize, SystemError>(SystemError::NotSuperIo),
        nvidia::fan_numbers(amd::fan_id_of(adapter)) == Err::<(u32, u32), NvidiaError>(
            NvidiaError::NotNvidia,
        ),
{
    reveal_strlit("sio:");
    reveal_strlit("nvidia:");
    reveal_strlit("amd:");
    lemma_other_prefix(fan_id_of(fan), "amd:"@);
    lemma_other_prefix(fan_id_of(fan), "nvidia:"@);
    lemma_other_prefix(nvidia::fan_id_of(gpu, gpu_fan), "sio:"@);
    lemma_other_prefix(nvidia::fan_id_of(gpu, gpu_fan), "amd:"@);
    lemma_other_prefix(amd::fan_id_of(adapter), "sio:"@);
    lemma_other_prefix(amd::fan_id_of(adapter), "nvidia:"@);
}

proof fn lemma_other_prefix(id: Seq<char>, prefix: Seq<char>)
    requires
        id.len() > 0,
        prefix.len() > 0,
        id[0] != prefix[0],
    ensures
        !begins_with(id, prefix),
{
    if begins_with(id, prefix) {
        assert(id.subrange(0, prefix.len() as int)[0] == id[0]);
    }
}

/// An identifier that does not begin with the four characters of the motherboard's fans is
/// refused as another backend's, whatever is open.
pub proof fn lemma_other_identifiers_are_refused(b: SystemView, id: Seq<char>, pct: u8)
    requires
        id.len() < 4 || id.take(4) != seq!['s', 'i', 'o', ':'],
    ensures
        setting_speed(b, id, pct) == PortTalk::End(
            (Err::<(), SystemError>(SystemError::NotSuperIo), b.saved_modes),
        ),
        resetting(b, id) == PortTalk::End(
            (Err::<(), SystemError>(SystemError::NotSuperIo), b.saved_modes),
        ),
{
    reveal_strlit("sio:");
    assert("sio:"@ =~= seq!['s', 'i', 'o', ':']);
    if begins_with(id, "sio:"@) {
        assert(id.subrange(0, 4) =~= id.take(4));
    }
}

/// Whether a text is no number: it is empty, or holds a character that is no digit, other than a
/// plus sign before a digit.
pub open spec fn is_no_number(text: Seq<char>) -> bool {
    ||| text.len() == 0
    ||| text.len() == 1 && text[0] == '+'
    ||| exists|i: int|
        0 <= i < text.len() && !('0' <= #[trigger] text[i] <= '9') && !(i == 0 && text[i] == '+')
}

/// A fan whose number cannot be read is refused as such, whatever is open.
pub proof fn lemma_bad_numbers_are_refused(b: SystemView, text: Seq<char>, pct: u8)
    requires
        is_no_number(text),
        !begins_with(text, "sio:"@),
    ensures
        setting_speed(b, "sio:"@ + text, pct) == PortTalk::End(
            (Err::<(), SystemError>(SystemError::BadNumber), b.saved_modes),
        ),
        resetting(b, "sio:"@ + text) == PortTalk::End(
            (Err::<(), SystemError>(SystemError::BadNumber), b.saved_modes),
        ),
{
    reveal_strlit("sio:");
    lemma_prefix_comes_off("sio:"@, text);
    let body = if text.len() > 0 && text[0] == '+' {
        text.drop_first()
    } else {
        text
    };
    if is_numeral(body) {
        assert forall|i: int| 0 <= i < text.len() implies ('0' <= #[trigger] text[i] <= '9') || (i
            == 0 && text[i] == '+') by {
            if text[0] == '+' {
                if i > 0 {
                    assert(is_digit(body[i - 1]));
                }
            } else {
                assert(is_digit(body[i]));
            }
        }
    }
}

/// Without the driver, and without a chip, no fan is set or handed back: what is returned says
/// which is missing, and nothing is asked of the ports.
pub proof fn lemma_nothing_to_drive(b: SystemView, fan: usize, pct: u8)
    requires
        !b.ring0 || b.chip is None,
    ensures
        ({
            let id = "sio:"@ + digits(fan as nat);
            let e = if b.ring0 {
                SystemError::NoChip
            } else {
                SystemError::NoDriver
            };
            &&& setting_speed(b, id, pct) == PortTalk::End((Err::<(), SystemError>(e), b.saved_modes))
            &&& resetting(b, id) == PortTalk::End((Err::<(), SystemError>(e), b.saved_modes))
        }),
{
    lemma_fan_id(fan);
}

/// Without the driver, and without a chip, a scan lists nothing and asks nothing of the ports.
pub proof fn lemma_nothing_to_list(b: SystemView, replies: Seq<Option<u8>>)
    requires
        !b.ring0 || b.chip is None,
    ensures
        requests(scanning(b), replies).len() == 0,
        replay(scanning(b), replies) matches Outcome::Finished { value: fans, .. } && fans.len()
            == 0,
{
    if let Some(chip) = b.chip {
        lemma_nothing_from(b, chip.fan_count, 0, replies);
    }
}

proof fn lemma_nothing_from(b: SystemView, count: usize, fan: usize, replies: Seq<Option<u8>>)
    requires
        !b.ring0,
    ensures
        requests(scanning_from(b, count, seq![], fan), replies).len() == 0,
        replay(scanning_from(b, count, seq![], fan), replies) == (Outcome::<
            PortOp,
            Option<u8>,
            Seq<FanView>,
        >::Finished { value: seq![], rest: replies }),
    decreases count - fan,
{
    broadcast use {crate::session::group_replay, crate::session::group_requests};

    if fan < count {
        assert(reading_rpm(b, fan) == PortTalk::End(None::<u32>));
        lemma_nothing_from(b, count, (fan + 1) as usize, replies);
    }
}

} // verus!
