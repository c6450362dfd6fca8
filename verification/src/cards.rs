//! What AMD graphics cards are told to do, and what is listed of them.
use vstd::prelude::*;

use crate::amd::{
    adapter_fan, applying_pct, closing, lemma_fan_ids, opening, reading_pct, reading_temp,
    resetting, resetting_fan, scanning, scanning_from, setting_speed, taken_adapters, AdapterView,
    AdlAdapterInfo, AdlFanSpeedValue, AdlFunction, AdlOdnFanControl, AdlReply, AdlRequest, AdlTalk,
    AmdError, AmdView,
};
use crate::fan::{FanMode, FanType, FanView, Temperature};
use crate::session::{converse, requests};
use crate::text::{
    begins_with, is_space, signed_digits, trimmed, trimmed_end, trimmed_start,
};

verus! {

/// The cards of a machine, by the numbers of their adapters, and the library's functions.
pub struct Cards {
    pub functions: Set<AdlFunction>,
    /// The OverdriveN settings, and whether they can be read and are taken over.
    pub controls: Map<i32, AdlOdnFanControl>,
    pub readable: bool,
    pub writable: bool,
    /// The Overdrive5 speed that was set last; none once it was given back.
    pub speeds: Map<i32, AdlFanSpeedValue>,
    /// What Overdrive5 shows of the speed and of the temperature, with its status.
    pub shown: Map<i32, (i32, i32)>,
    pub heat: Map<i32, (i32, i32)>,
    /// Whether Overdrive5 takes a speed over.
    pub obedient: bool,
}

/// The status of a call.
pub open spec fn status(ok: bool) -> i32 {
    if ok {
        0
    } else {
        1
    }
}

/// How the cards react to a request.
pub open spec fn reacting() -> spec_fn(Cards, AdlRequest) -> (Cards, AdlReply) {
    |m: Cards, request: AdlRequest|
        match request {
            AdlRequest::Find(f) => (m, AdlReply::Present(m.functions.contains(f))),
            AdlRequest::GetFanControl { adapter } => (
                m,
                AdlReply::FanControl {
                    status: status(m.readable),
                    control: m.controls[adapter],
                },
            ),
            AdlRequest::SetFanControl { adapter, control } => (
                if m.writable {
                    Cards { controls: m.controls.insert(adapter, control), ..m }
                } else {
                    m
                },
                AdlReply::Status(status(m.writable)),
            ),
            AdlRequest::GetFanSpeed { adapter, value } => (
                m,
                if value.size == 16 && value.speed_type == 2 {
                    AdlReply::FanSpeed { status: m.shown[adapter].0, speed: m.shown[adapter].1 }
                } else {
                    AdlReply::FanSpeed { status: 1, speed: 0 }
                },
            ),
            AdlRequest::SetFanSpeed { adapter, value } => (
                if m.obedient {
                    Cards { speeds: m.speeds.insert(adapter, value), ..m }
                } else {
                    m
                },
                AdlReply::Status(status(m.obedient)),
            ),
            AdlRequest::SetFanSpeedToDefault { adapter } => (
                if m.obedient {
                    Cards { speeds: m.speeds.remove(adapter), ..m }
                } else {
                    m
                },
                AdlReply::Status(status(m.obedient)),
            ),
            AdlRequest::GetTemperature { adapter, size } => (
                m,
                if size == 8 {
                    AdlReply::TemperatureRead {
                        status: m.heat[adapter].0,
                        temperature: m.heat[adapter].1,
                    }
                } else {
                    AdlReply::TemperatureRead { status: 1, temperature: 0 }
                },
            ),
            _ => (m, AdlReply::Status(1)),
        }
}

/// Whether the settings of a card can be read and changed by OverdriveN.
pub open spec fn has_overdrive_n(m: Cards) -> bool {
    m.functions.contains(AdlFunction::OdnFanControlGet) && m.functions.contains(
        AdlFunction::OdnFanControlSet,
    ) && m.readable
}

/// A speed cut to 20 to 100 percent.
pub open spec fn bounded(pct: u8) -> int {
    if pct < 20 {
        20
    } else if pct > 100 {
        100
    } else {
        pct as int
    }
}

proof fn lemma_applies(m: Cards, adapter: i32, pct: u8)
    ensures
        ({
            let (after, out) = converse(applying_pct(adapter, pct), m, reacting());
            is_driven(m, after, adapter, bounded(pct), out)
        }),
{
    broadcast use crate::session::group_converse;

}

/// Whether a card was set to a speed: by OverdriveN, with all its other settings as they were, or
/// else by Overdrive5, or by neither, which is an error. Nothing else changes, and no other card.
pub open spec fn is_driven(
    before: Cards,
    after: Cards,
    adapter: i32,
    level: int,
    out: Result<(), AmdError>,
) -> bool {
    if has_overdrive_n(before) && before.writable {
        &&& out == Ok::<(), AmdError>(())
        &&& after == (Cards {
            controls: before.controls.insert(
                adapter,
                AdlOdnFanControl {
                    mode: 1,
                    target_fan_speed: level as i32,
                    ..before.controls[adapter]
                },
            ),
            ..before
        })
    } else if before.functions.contains(AdlFunction::Od5FanSpeedSet) && before.obedient {
        &&& out == Ok::<(), AmdError>(())
        &&& after == (Cards {
            speeds: before.speeds.insert(
                adapter,
                AdlFanSpeedValue { size: 16, speed_type: 2, fan_speed: level as i32, flags: 1 },
            ),
            ..before
        })
    } else {
        &&& out == Err::<(), AmdError>(AmdError::ControlFailed { adapter })
        &&& after == before
    }
}

/// With the library loaded, setting the card of a number in an identifier sets that card, and no
/// other, to the speed that was asked for, cut to 20 to 100 percent.
pub proof fn lemma_set_speed(b: AmdView, m: Cards, adapter: i32, pct: u8)
    requires
        b.lib,
    ensures
        ({
            let (after, out) = converse(
                setting_speed(b, "amd:"@ + signed_digits(adapter as int), pct),
                m,
                reacting(),
            );
            is_driven(m, after, adapter, bounded(pct), out)
        }),
{
    lemma_fan_ids(adapter, adapter);
    lemma_applies(m, adapter, pct);
}

/// Whether a card was handed back: by OverdriveN, with all its other settings as they were, or
/// else by Overdrive5, or by neither, which is an error.
pub open spec fn is_released(
    before: Cards,
    after: Cards,
    adapter: i32,
    out: Result<(), AmdError>,
) -> bool {
    if has_overdrive_n(before) {
        &&& out == Ok::<(), AmdError>(())
        &&& after == if before.writable {
            Cards {
                controls: before.controls.insert(
                    adapter,
                    AdlOdnFanControl { mode: 0, ..before.controls[adapter] },
                ),
                ..before
            }
        } else {
            before
        }
    } else if before.functions.contains(AdlFunction::Od5FanSpeedToDefault) && before.obedient {
        &&& out == Ok::<(), AmdError>(())
        &&& after == (Cards { speeds: before.speeds.remove(adapter), ..before })
    } else {
        &&& out == Err::<(), AmdError>(AmdError::ResetFailed)
        &&& after == before
    }
}

proof fn lemma_releases(m: Cards, adapter: i32)
    ensures
        ({
            let (after, out) = converse(resetting_fan(adapter), m, reacting());
            is_released(m, after, adapter, out)
        }),
{
    broadcast use crate::session::group_converse;

}

/// With the library loaded, handing the card of a number in an identifier back puts that card,
/// and no other, under automatic control.
pub proof fn lemma_reset_to_auto(b: AmdView, m: Cards, adapter: i32)
    requires
        b.lib,
    ensures
        ({
            let (after, out) = converse(
                resetting(b, "amd:"@ + signed_digits(adapter as int)),
                m,
                reacting(),
            );
            is_released(m, after, adapter, out)
        }),
{
    lemma_fan_ids(adapter, adapter);
    lemma_releases(m, adapter);
}

/// The speed that a card shows: that of OverdriveN where there is one above zero, else that of
/// Overdrive5, cut to 0 to 100 percent.
pub open spec fn speed_shown(m: Cards, adapter: i32) -> Option<int> {
    let current = m.controls[adapter].current_fan_speed;
    if m.functions.contains(AdlFunction::OdnFanControlGet) && m.readable && current > 0 {
        Some(
            if current > 100 {
                100
            } else {
                current as int
            },
        )
    } else if m.functions.contains(AdlFunction::Od5FanSpeedGet) && m.shown[adapter].0 == 0 {
        let speed = m.shown[adapter].1;
        Some(
            if speed < 0 {
                0
            } else if speed > 100 {
                100
            } else {
                speed as int
            },
        )
    } else {
        None
    }
}

/// The temperature that a card shows, in thousandths of a degree; a value above 1000 is in that
/// unit, one up to 1000 in degrees.
pub open spec fn heat_shown(m: Cards, adapter: i32) -> Option<int> {
    let (status, value) = m.heat[adapter];
    if m.functions.contains(AdlFunction::Od5TemperatureGet) && status == 0 && value > 0 {
        Some(
            if value > 1000 {
                value as int
            } else {
                1000 * value
            },
        )
    } else {
        None
    }
}

/// A temperature in thousandths of a degree.
pub open spec fn thousandths(t: Temperature) -> int {
    match t {
        Temperature::Celsius(degrees) => 1000 * degrees,
        Temperature::Millidegrees(n) => n as int,
    }
}

/// Whether a fan is listed as the one of an adapter.
pub open spec fn is_fan_of(m: Cards, adapter: AdapterView, f: FanView) -> bool {
    &&& f.id == "amd:"@ + signed_digits(adapter.index as int)
    &&& f.label == adapter.name + " Fan"@
    &&& f.fan_type == FanType::Amd
    &&& f.mode == FanMode::Auto
    &&& f.rpm is None
    &&& match speed_shown(m, adapter.index) {
        Some(pct) => f.speed_pct is Some && f.speed_pct->0 == pct,
        None => f.speed_pct is None,
    }
    &&& match heat_shown(m, adapter.index) {
        Some(t) => f.temperature is Some && thousandths(f.temperature->0) == t,
        None => f.temperature is None,
    }
    &&& f.rpm_min == Some(0u32)
    &&& f.rpm_max is None
    &&& f.controllable
    &&& !f.is_pump
}

proof fn lemma_reads(m: Cards, adapter: i32)
    ensures
        ({
            let (after, pct) = converse(reading_pct(adapter), m, reacting());
            after == m && match speed_shown(m, adapter) {
                Some(speed) => pct is Some && pct->0 == speed,
                None => pct is None,
            }
        }),
        ({
            let (after, temperature) = converse(reading_temp(adapter), m, reacting());
            after == m && match heat_shown(m, adapter) {
                Some(t) => temperature is Some && thousandths(temperature->0) == t,
                None => temperature is None,
            }
        }),
{
    broadcast use crate::session::group_converse;

}

/// A scan lists the fan of every adapter, in order, with what the card shows, and changes
/// nothing; there are none without the library and a context.
pub proof fn lemma_scan(b: AmdView, m: Cards)
    ensures
        ({
            let (after, fans) = converse(scanning(b), m, reacting());
            &&& after == m
            &&& if b.lib && b.ctx {
                &&& fans.len() == b.adapters.len()
                &&& forall|i: int|
                    0 <= i < fans.len() ==> is_fan_of(m, b.adapters[i], #[trigger] fans[i])
            } else {
                fans.len() == 0
            }
        }),
{
    if b.lib && b.ctx {
        lemma_scan_from(b.adapters, seq![], m);
    } else {
        assert(scanning(b) == AdlTalk::End(Seq::<FanView>::empty()));
        reveal_with_fuel(converse, 2);
    }
}

proof fn lemma_scan_first(adapters: Seq<AdapterView>, found: Seq<FanView>, m: Cards)
    requires
        adapters.len() > 0,
    ensures
        converse(scanning_from(adapters, found), m, reacting()) == ({
            let (one, pct) = converse(reading_pct(adapters[0].index), m, reacting());
            let (two, temperature) = converse(reading_temp(adapters[0].index), one, reacting());
            converse(
                scanning_from(
                    adapters.drop_first(),
                    found.push(adapter_fan(adapters[0], pct, temperature)),
                ),
                two,
                reacting(),
            )
        }),
{
    broadcast use crate::session::lemma_converse_bind;

}

proof fn lemma_scan_from(adapters: Seq<AdapterView>, found: Seq<FanView>, m: Cards)
    ensures
        ({
            let (after, fans) = converse(scanning_from(adapters, found), m, reacting());
            &&& after == m
            &&& fans.len() == found.len() + adapters.len()
            &&& forall|i: int| 0 <= i < found.len() ==> #[trigger] fans[i] == found[i]
            &&& forall|i: int|
                found.len() <= i < fans.len() ==> is_fan_of(
                    m,
                    adapters[i - found.len()],
                    #[trigger] fans[i],
                )
        }),
    decreases adapters.len(),
{
    if adapters.len() > 0 {
        lemma_scan_first(adapters, found, m);
        lemma_reads(m, adapters[0].index);
        let (one, pct) = converse(reading_pct(adapters[0].index), m, reacting());
        let (two, temperature) = converse(reading_temp(adapters[0].index), one, reacting());
        let fan = adapter_fan(adapters[0], pct, temperature);
        assert(is_fan_of(m, adapters[0], fan));
        lemma_scan_from(adapters.drop_first(), found.push(fan), m);
        let fans = converse(
            scanning_from(adapters.drop_first(), found.push(fan)),
            m,
            reacting(),
        ).1;
        assert forall|i: int| found.len() <= i < fans.len() implies is_fan_of(
            m,
            adapters[i - found.len()],
            #[trigger] fans[i],
        ) by {
            if i == found.len() {
                assert(fans[i] == found.push(fan)[i]);
            } else {
                assert(adapters[i - found.len()] == adapters.drop_first()[i - found.len() - 1]);
            }
        }
        assert forall|i: int| 0 <= i < found.len() implies #[trigger] fans[i] == found[i] by {
            assert(fans[i] == found.push(fan)[i]);
        }
    } else {
        assert(scanning_from(adapters, found) == AdlTalk::End(found));
        reveal_with_fuel(converse, 2);
    }
}

/// The display library of a machine.
pub struct DisplayLibrary {
    /// Whether it can be loaded, and its other edition.
    pub first: bool,
    pub other: bool,
    pub functions: Set<AdlFunction>,
    /// The status of making a context, and whether there is one.
    pub status: i32,
    pub context: bool,
    pub count: i32,
    pub infos: Vec<AdlAdapterInfo>,
}

/// How the library reacts to a request.
pub open spec fn loading() -> spec_fn(DisplayLibrary, AdlRequest) -> (DisplayLibrary, AdlReply) {
    |m: DisplayLibrary, request: AdlRequest|
        match request {
            AdlRequest::LoadLibrary { other } => (
                m,
                AdlReply::Present(
                    if other {
                        m.other
                    } else {
                        m.first
                    },
                ),
            ),
            AdlRequest::Find(f) => (m, AdlReply::Present(m.functions.contains(f))),
            AdlRequest::Create => (
                m,
                AdlReply::Created { status: m.status, context: m.context },
            ),
            AdlRequest::CountAdapters => (m, AdlReply::Count(m.count)),
            AdlRequest::DescribeAdapters { count } => (
                m,
                if count == m.count {
                    AdlReply::Adapters(m.infos)
                } else {
                    AdlReply::Status(1)
                },
            ),
            _ => (m, AdlReply::Status(1)),
        }
}

/// Whether the library can be used.
pub open spec fn is_usable(m: DisplayLibrary) -> bool {
    &&& m.first || m.other
    &&& m.functions.contains(AdlFunction::Create)
    &&& m.status == 0
    &&& m.functions.contains(AdlFunction::NumberOfAdapters)
    &&& m.count != 0
}

/// Whether a name is an adapter's: what the library calls it without the white space around, or,
/// where that leaves nothing, its number.
pub open spec fn is_name_of(info: AdlAdapterInfo, name: Seq<char>) -> bool {
    exists|from: int, to: int| #[trigger]
        is_core(info.name@, from, to) && name == if from == to {
            "AMD GPU "@ + signed_digits(info.index as int)
        } else {
            info.name@.subrange(from, to)
        }
}

/// Whether a text has white space around the part between two places, and none at its ends.
pub open spec fn is_core(text: Seq<char>, from: int, to: int) -> bool {
    &&& 0 <= from <= to <= text.len()
    &&& forall|i: int| 0 <= i < from ==> is_space(#[trigger] text[i])
    &&& forall|i: int| to <= i < text.len() ==> is_space(#[trigger] text[i])
    &&& from < to ==> !is_space(text[from]) && !is_space(text[to - 1])
}

/// Whether the taken adapters are those that are present and made by AMD, in order, and no
/// others. `numbers` are their places among the described ones.
pub open spec fn are_taken(
    infos: Seq<AdlAdapterInfo>,
    taken: Seq<AdapterView>,
    numbers: Seq<int>,
) -> bool {
    &&& numbers.len() == taken.len()
    &&& forall|i: int, j: int| 0 <= i < j < numbers.len() ==> numbers[i] < numbers[j]
    &&& forall|k: int|
        #![trigger numbers[k]]
        0 <= k < numbers.len() ==> {
            &&& 0 <= numbers[k] < infos.len()
            &&& infos[numbers[k]].present != 0
            &&& infos[numbers[k]].vendor_id == 4098
            &&& taken[k].index == infos[numbers[k]].index
            &&& is_name_of(infos[numbers[k]], taken[k].name)
        }
    &&& forall|n: int|
        0 <= n < infos.len() && (#[trigger] infos[n]).present != 0 && infos[n].vendor_id == 4098
            ==> numbers.contains(n)
}

/// Whether a list is that of the adapters that are present and made by AMD.
pub open spec fn is_list_of_adapters(
    infos: Seq<AdlAdapterInfo>,
    taken: Seq<AdapterView>,
) -> bool {
    exists|numbers: Seq<int>| #[trigger] are_taken(infos, taken, numbers)
}

/// Opening takes the adapters that are present and made by AMD, where the library can be used;
/// otherwise there is none.
pub proof fn lemma_opens(m: DisplayLibrary)
    ensures
        ({
            let b = converse(opening(), m, loading()).1;
            if is_usable(m) {
                &&& b.lib
                &&& b.ctx == m.context
                &&& if m.functions.contains(AdlFunction::AdapterInfo) {
                    is_list_of_adapters(m.infos@, b.adapters)
                } else {
                    b.adapters.len() == 0
                }
            } else {
                !b.lib && !b.ctx && b.adapters.len() == 0
            }
        }),
{
    broadcast use crate::session::group_converse;

    lemma_taken(m.infos@);
}

proof fn lemma_core_is_trimmed(text: Seq<char>)
    ensures
        exists|from: int, to: int| #[trigger]
            is_core(text, from, to) && trimmed(text) == text.subrange(from, to),
{
    lemma_start_trimmed(text);
    let from = text.len() - trimmed_start(text).len();
    let rest = trimmed_start(text);
    lemma_end_trimmed(rest);
    let n = trimmed_end(rest).len() as int;
    let to = from + n;
    assert(rest == text.skip(from));
    assert forall|i: int| to <= i < text.len() implies is_space(#[trigger] text[i]) by {
        assert(rest[i - from] == text[i]);
    }
    if from < to {
        assert(rest[0] == text[from]);
        assert(rest[n - 1] == text[to - 1]);
    }
    assert(trimmed(text) =~= text.subrange(from, to));
    assert(is_core(text, from, to));
}

proof fn lemma_start_trimmed(text: Seq<char>)
    ensures
        trimmed_start(text).len() <= text.len(),
        trimmed_start(text) == text.skip(text.len() - trimmed_start(text).len()),
        forall|i: int|
            0 <= i < text.len() - trimmed_start(text).len() ==> is_space(#[trigger] text[i]),
        trimmed_start(text).len() > 0 ==> !is_space(trimmed_start(text)[0]),
    decreases text.len(),
{
    if text.len() > 0 && is_space(text[0]) {
        let rest = text.drop_first();
        lemma_start_trimmed(rest);
        assert(trimmed_start(text) == trimmed_start(rest));
        let k = rest.len() - trimmed_start(rest).len();
        assert(rest.skip(k) =~= text.skip(k + 1));
        assert forall|i: int| 0 <= i < k + 1 implies is_space(#[trigger] text[i]) by {
            if i > 0 {
                assert(rest[i - 1] == text[i]);
            }
        }
    } else {
        assert(text.skip(0) =~= text);
    }
}

proof fn lemma_end_trimmed(text: Seq<char>)
    ensures
        trimmed_end(text).len() <= text.len(),
        trimmed_end(text) == text.take(trimmed_end(text).len() as int),
        forall|i: int|
            trimmed_end(text).len() <= i < text.len() ==> is_space(#[trigger] text[i]),
        trimmed_end(text).len() > 0 ==> !is_space(trimmed_end(text).last()),
    decreases text.len(),
{
    if text.len() > 0 && is_space(text.last()) {
        let rest = text.drop_last();
        lemma_end_trimmed(rest);
        assert(trimmed_end(text) == trimmed_end(rest));
        let n = trimmed_end(rest).len() as int;
        assert(rest.take(n) =~= text.take(n));
        assert forall|i: int| n <= i < text.len() implies is_space(#[trigger] text[i]) by {
            if i < rest.len() {
                assert(rest[i] == text[i]);
            }
        }
    } else {
        assert(text.take(text.len() as int) =~= text);
    }
}

proof fn lemma_taken(infos: Seq<AdlAdapterInfo>)
    ensures
        is_list_of_adapters(infos, taken_adapters(infos)),
    decreases infos.len(),
{
    let taken = taken_adapters(infos);
    if infos.len() == 0 {
        assert(are_taken(infos, taken, seq![]));
    } else {
        let fewer = infos.drop_last();
        let info = infos.last();
        let last = fewer.len() as int;
        lemma_taken(fewer);
        let before = taken_adapters(fewer);
        let numbers = choose|numbers: Seq<int>| #[trigger] are_taken(fewer, before, numbers);
        assert(infos[last] == info);
        assert forall|n: int| 0 <= n < last implies #[trigger] infos[n] == fewer[n] by {}
        if info.present != 0 && info.vendor_id == 4098 {
            let longer = numbers.push(last);
            lemma_core_is_trimmed(info.name@);
            let (from, to) = choose|from: int, to: int| #[trigger]
                is_core(info.name@, from, to) && trimmed(info.name@) == info.name@.subrange(
                    from,
                    to,
                );
            assert(is_name_of(info, taken.last().name)) by {
                assert(is_core(info.name@, from, to));
            }
            assert forall|k: int| #![trigger longer[k]] 0 <= k < longer.len() implies {
                &&& 0 <= longer[k] < infos.len()
                &&& infos[longer[k]].present != 0
                &&& infos[longer[k]].vendor_id == 4098
                &&& taken[k].index == infos[longer[k]].index
                &&& is_name_of(infos[longer[k]], taken[k].name)
            } by {
                if k < numbers.len() {
                    assert(longer[k] == numbers[k]);
                    assert(infos[longer[k]] == fewer[numbers[k]]);
                    assert(taken[k] == before[k]);
                }
            }
            assert forall|n: int|
                0 <= n < infos.len() && (#[trigger] infos[n]).present != 0 && infos[n].vendor_id
                    == 4098 implies longer.contains(n) by {
                if n < last {
                    assert(fewer[n] == infos[n]);
                    assert(numbers.contains(n));
                    let i = choose|i: int| 0 <= i < numbers.len() && numbers[i] == n;
                    assert(longer[i] == n);
                } else {
                    assert(longer[numbers.len() as int] == n);
                }
            }
            assert(are_taken(infos, taken, longer));
        } else {
            assert forall|n: int|
                0 <= n < infos.len() && (#[trigger] infos[n]).present != 0 && infos[n].vendor_id
                    == 4098 implies numbers.contains(n) by {
                assert(n < last);
                assert(fewer[n] == infos[n]);
            }
            assert(are_taken(infos, taken, numbers));
        }
    }
}

/// An identifier that does not begin with the four characters of AMD's fans is refused as another
/// backend's; without the library no fan is set or handed back.
pub proof fn lemma_refused(b: AmdView, id: Seq<char>, adapter: i32, pct: u8)
    ensures
        (id.len() < 4 || id.take(4) != seq!['a', 'm', 'd', ':']) ==> {
            &&& setting_speed(b, id, pct) == AdlTalk::End(Err::<(), AmdError>(AmdError::NotAmd))
            &&& resetting(b, id) == AdlTalk::End(Err::<(), AmdError>(AmdError::NotAmd))
        },
        !b.lib ==> {
            let own = "amd:"@ + signed_digits(adapter as int);
            &&& setting_speed(b, own, pct) == AdlTalk::End(Err::<(), AmdError>(AmdError::NotLoaded))
            &&& resetting(b, own) == AdlTalk::End(Err::<(), AmdError>(AmdError::NotLoaded))
        },
{
    lemma_fan_ids(adapter, adapter);
    reveal_strlit("amd:");
    assert("amd:"@ =~= seq!['a', 'm', 'd', ':']);
    if begins_with(id, "amd:"@) {
        assert(id.subrange(0, 4) =~= id.take(4));
    }
}

/// The context is given back, where there is one and the library has the function for it, and
/// nothing else is asked.
pub proof fn lemma_closes(b: AmdView, there: bool, status: i32)
    ensures
        ({
            let made = requests(
                closing(b),
                seq![AdlReply::Present(there), AdlReply::Status(status)],
            );
            if !b.lib || !b.ctx {
                made.len() == 0
            } else if there {
                made == seq![AdlRequest::Find(AdlFunction::Destroy), AdlRequest::Destroy]
            } else {
                made == seq![AdlRequest::Find(AdlFunction::Destroy)]
            }
        }),
{
    broadcast use {crate::session::group_replay, crate::session::group_requests};

    let replies = seq![AdlReply::Present(there), AdlReply::Status(status)];
    assert(replies.drop_first() =~= seq![AdlReply::Status(status)]);
    if b.lib && b.ctx {
        if there {
            assert(requests(closing(b), replies) =~= seq![
                AdlRequest::Find(AdlFunction::Destroy),
                AdlRequest::Destroy,
            ]);
        } else {
            assert(requests(closing(b), replies) =~= seq![AdlRequest::Find(AdlFunction::Destroy)]);
        }
    }
}

} // verus!
