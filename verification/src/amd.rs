//! The fans of AMD graphics cards, driven through the vendor's display library.
//!
//! The library offers two interfaces, of which a card supports one: "OverdriveN", which reads
//! and writes a block of fan settings, and the older "Overdrive5".
use vstd::prelude::*;

use crate::fan::{fan_views, FanInfo, FanMode, FanType, FanView, Temperature};
use crate::session::{asking, converse, ran, replay, Dialogue, Session};
use crate::text::{
    begins, begins_with, chars_of, is_digit, lemma_digits_numeral, lemma_prefix_comes_off,
    lemma_signed_digits_parse, parse_i32, parsed_i32, push_signed, signed_digits, strip_prefix,
    trim, trimmed, without_prefix,
};

verus! {

broadcast use crate::session::group_replay;

/// The functions of the library that are used.
#[derive(Clone, Copy, PartialEq, Eq, Structural, Debug)]
pub enum AdlFunction {
    Create,
    Destroy,
    NumberOfAdapters,
    AdapterInfo,
    OdnFanControlGet,
    OdnFanControlSet,
    Od5FanSpeedGet,
    Od5FanSpeedSet,
    Od5FanSpeedToDefault,
    Od5TemperatureGet,
}

/// The fan settings of the OverdriveN interface.
#[derive(Clone, Copy, PartialEq, Eq, Structural, Debug)]
pub struct AdlOdnFanControl {
    /// 0 for automatic control, 1 for manual.
    pub mode: i32,
    pub fan_control_mode: i32,
    pub current_fan_speed_mode: i32,
    pub current_fan_speed: i32,
    pub target_fan_speed: i32,
    pub target_temperature: i32,
    pub min_performance_clock: i32,
    pub max_fan_speed: i32,
    pub min_fan_speed: i32,
    pub auto_system_command_fan_speed: i32,
}

/// A fan speed of the Overdrive5 interface.
#[derive(Clone, Copy, PartialEq, Eq, Structural, Debug)]
pub struct AdlFanSpeedValue {
    pub size: i32,
    /// 2 for a speed in percent.
    pub speed_type: i32,
    pub fan_speed: i32,
    /// 1 for a speed that the user sets.
    pub flags: i32,
}

/// What the library says of an adapter.
#[derive(Clone, Debug)]
pub struct AdlAdapterInfo {
    pub index: i32,
    pub vendor_id: i32,
    pub present: i32,
    pub name: String,
}

/// What is asked of the library.
#[derive(Clone, Copy, PartialEq, Eq, Structural, Debug)]
pub enum AdlRequest {
    /// Load [`LIBRARY`], or [`OTHER_LIBRARY`].
    LoadLibrary { other: bool },
    /// Find a function.
    Find(AdlFunction),
    /// Make a context.
    Create,
    /// Count the adapters.
    CountAdapters,
    /// Describe `count` adapters.
    DescribeAdapters { count: i32 },
    /// Read the OverdriveN settings.
    GetFanControl { adapter: i32 },
    /// Write the OverdriveN settings.
    SetFanControl { adapter: i32, control: AdlOdnFanControl },
    /// Read the Overdrive5 speed into `value`.
    GetFanSpeed { adapter: i32, value: AdlFanSpeedValue },
    /// Write the Overdrive5 speed.
    SetFanSpeed { adapter: i32, value: AdlFanSpeedValue },
    /// Hand the fan back to automatic control by Overdrive5.
    SetFanSpeedToDefault { adapter: i32 },
    /// Read the Overdrive5 temperature into a block of `size` bytes.
    GetTemperature { adapter: i32, size: i32 },
    /// Give the context back.
    Destroy,
}

/// What the library answers. A reply of another kind than the request calls for counts as a
/// failure.
#[derive(Clone, Debug)]
pub enum AdlReply {
    /// Whether what was loaded or looked up is there.
    Present(bool),
    /// The status of a call.
    Status(i32),
    /// The status of making a context, and whether there is one.
    Created { status: i32, context: bool },
    /// How many adapters there are.
    Count(i32),
    /// The descriptions of the adapters.
    Adapters(Vec<AdlAdapterInfo>),
    /// The status of reading the OverdriveN settings, and the settings.
    FanControl { status: i32, control: AdlOdnFanControl },
    /// The status of reading the Overdrive5 speed, and the speed.
    FanSpeed { status: i32, speed: i32 },
    /// The status of reading the temperature, and the temperature.
    TemperatureRead { status: i32, temperature: i32 },
}

/// The replies of the library.
pub type AdlSession = Session<AdlReply>;

/// A conversation with the library.
pub type AdlTalk<T> = Dialogue<AdlRequest, AdlReply, T>;

/// An adapter with a fan.
pub struct AdlAdapter {
    pub index: i32,
    pub name: String,
}

/// The contents of an [`AdlAdapter`].
#[verifier::ext_equal]
pub struct AdapterView {
    pub index: i32,
    pub name: Seq<char>,
}

impl View for AdlAdapter {
    type V = AdapterView;

    open spec fn view(&self) -> AdapterView {
        AdapterView { index: self.index, name: self.name@ }
    }
}

/// Why a fan of a card cannot be driven.
#[derive(Clone, Copy, PartialEq, Eq, Structural, Debug)]
pub enum AmdError {
    /// The fan belongs to another backend.
    NotAmd,
    /// The number of the adapter cannot be read.
    BadNumber,
    /// The library is not loaded.
    NotLoaded,
    /// Neither interface took the speed over.
    ControlFailed { adapter: i32 },
    /// Neither interface handed the fan back.
    ResetFailed,
}

/// The fans of AMD graphics cards.
pub struct AmdBackend {
    /// Whether the library is loaded.
    lib: bool,
    /// Whether there is a context.
    ctx: bool,
    adapters: Vec<AdlAdapter>,
}

/// The contents of an [`AmdBackend`].
#[verifier::ext_equal]
pub struct AmdView {
    pub lib: bool,
    pub ctx: bool,
    pub adapters: Seq<AdapterView>,
}

/// The contents of a list of adapters.
pub open spec fn adapter_views(adapters: Seq<AdlAdapter>) -> Seq<AdapterView> {
    adapters.map_values(|a: AdlAdapter| a@)
}

impl View for AmdBackend {
    type V = AmdView;

    closed spec fn view(&self) -> AmdView {
        AmdView { lib: self.lib, ctx: self.ctx, adapters: adapter_views(self.adapters@) }
    }
}

/// The file of the library.
pub const LIBRARY: &'static str = "atiadlxx.dll";

/// The file of the library's other edition.
pub const OTHER_LIBRARY: &'static str = "atiadlxy.dll";

/// The vendor number of AMD.
pub const AMD_VENDOR: i32 = 0x1002;

/// Whether a reply says that what was asked for is there.
pub open spec fn is_present(reply: AdlReply) -> bool {
    reply == AdlReply::Present(true)
}

/// Whether a reply is the status of a call that succeeded.
pub open spec fn is_ok(reply: AdlReply) -> bool {
    reply == AdlReply::Status(0)
}

/// Asks for something to be loaded or looked up; ends with whether it is there.
pub open spec fn having(request: AdlRequest) -> AdlTalk<bool> {
    asking(request).bind(|reply: AdlReply| Dialogue::End(is_present(reply)))
}

/// Makes a call; ends with whether it succeeded.
pub open spec fn calling(request: AdlRequest) -> AdlTalk<bool> {
    asking(request).bind(|reply: AdlReply| Dialogue::End(is_ok(reply)))
}

/// `yes` if `test` ends with true, and `no` otherwise.
pub open spec fn choosing<T>(test: AdlTalk<bool>, yes: AdlTalk<T>, no: AdlTalk<T>) -> AdlTalk<T> {
    test.bind(
        |b: bool|
            if b {
                yes
            } else {
                no
            },
    )
}

/// The name by which an adapter is reported; one without a name is numbered.
pub open spec fn adapter_name(info: AdlAdapterInfo) -> Seq<char> {
    if trimmed(info.name@).len() == 0 {
        "AMD GPU "@ + signed_digits(info.index as int)
    } else {
        trimmed(info.name@)
    }
}

/// Whether an adapter is taken: it is present and made by AMD.
pub open spec fn is_taken(info: AdlAdapterInfo) -> bool {
    info.present != 0 && info.vendor_id == AMD_VENDOR
}

/// The adapters that are taken of the described ones, in their order.
pub open spec fn taken_adapters(infos: Seq<AdlAdapterInfo>) -> Seq<AdapterView>
    decreases infos.len(),
{
    if infos.len() == 0 {
        seq![]
    } else {
        let before = taken_adapters(infos.drop_last());
        let info = infos.last();
        if is_taken(info) {
            before.push(AdapterView { index: info.index, name: adapter_name(info) })
        } else {
            before
        }
    }
}

/// A backend without the library.
pub open spec fn unloaded() -> AmdView {
    AmdView { lib: false, ctx: false, adapters: seq![] }
}

/// Loads the library, makes a context and lists the adapters. Ends without the library if it
/// or a function that is needed is missing, no context can be made, or there is no adapter.
pub open spec fn opening() -> AdlTalk<AmdView> {
    choosing(
        having(AdlRequest::LoadLibrary { other: false }),
        creating(),
        choosing(
            having(AdlRequest::LoadLibrary { other: true }),
            creating(),
            Dialogue::End(unloaded()),
        ),
    )
}

/// Makes a context in the loaded library, and lists the adapters.
pub open spec fn creating() -> AdlTalk<AmdView> {
    choosing(
        having(AdlRequest::Find(AdlFunction::Create)),
        asking(AdlRequest::Create).bind(
            |reply: AdlReply|
                match reply {
                    AdlReply::Created { status, context } => if status != 0 {
                        Dialogue::End(unloaded())
                    } else {
                        counting(context)
                    },
                    _ => Dialogue::End(unloaded()),
                },
        ),
        Dialogue::End(unloaded()),
    )
}

/// The number of adapters that a reply carries.
pub open spec fn count_of(reply: AdlReply) -> i32 {
    match reply {
        AdlReply::Count(n) => n,
        _ => 0,
    }
}

/// Counts and lists the adapters.
pub open spec fn counting(context: bool) -> AdlTalk<AmdView> {
    choosing(
        having(AdlRequest::Find(AdlFunction::NumberOfAdapters)),
        asking(AdlRequest::CountAdapters).bind(
            |reply: AdlReply|
                if count_of(reply) == 0 {
                    Dialogue::End(unloaded())
                } else {
                    describing(context, count_of(reply))
                },
        ),
        Dialogue::End(unloaded()),
    )
}

/// The descriptions of adapters that a reply carries.
pub open spec fn infos_of(reply: AdlReply) -> Seq<AdlAdapterInfo> {
    match reply {
        AdlReply::Adapters(infos) => infos@,
        _ => seq![],
    }
}

/// Lists the adapters; there are none without the function that describes them.
pub open spec fn describing(context: bool, count: i32) -> AdlTalk<AmdView> {
    choosing(
        having(AdlRequest::Find(AdlFunction::AdapterInfo)),
        asking(AdlRequest::DescribeAdapters { count }).bind(
            |reply: AdlReply|
                Dialogue::End(
                    AmdView {
                        lib: true,
                        ctx: context,
                        adapters: taken_adapters(infos_of(reply)),
                    },
                ),
        ),
        Dialogue::End(AmdView { lib: true, ctx: context, adapters: seq![] }),
    )
}

/// A speed cut to 0 to 100 percent.
pub open spec fn as_pct(speed: i32) -> u8 {
    if speed < 0 {
        0
    } else if speed > 100 {
        100
    } else {
        speed as u8
    }
}

/// The speed that the OverdriveN settings show, if they could be read and show one.
pub open spec fn odn_speed(reply: AdlReply) -> Option<u8> {
    match reply {
        AdlReply::FanControl { status, control } => if status == 0 && control.current_fan_speed
            > 0 {
            Some(as_pct(control.current_fan_speed))
        } else {
            None
        },
        _ => None,
    }
}

/// The speed that Overdrive5 shows, if it could be read.
pub open spec fn od5_speed(reply: AdlReply) -> Option<u8> {
    match reply {
        AdlReply::FanSpeed { status, speed } => if status == 0 {
            Some(as_pct(speed))
        } else {
            None
        },
        _ => None,
    }
}

/// Reads the speed of a fan by OverdriveN, or by Overdrive5 where that shows none.
pub open spec fn reading_pct(adapter: i32) -> AdlTalk<Option<u8>> {
    choosing(
        having(AdlRequest::Find(AdlFunction::OdnFanControlGet)),
        asking(AdlRequest::GetFanControl { adapter }).bind(
            |reply: AdlReply|
                match odn_speed(reply) {
                    Some(pct) => Dialogue::End(Some(pct)),
                    None => reading_od5_pct(adapter),
                },
        ),
        reading_od5_pct(adapter),
    )
}

/// Reads the speed of a fan by Overdrive5.
pub open spec fn reading_od5_pct(adapter: i32) -> AdlTalk<Option<u8>> {
    choosing(
        having(AdlRequest::Find(AdlFunction::Od5FanSpeedGet)),
        asking(
            AdlRequest::GetFanSpeed {
                adapter,
                value: AdlFanSpeedValue { size: 16, speed_type: 2, fan_speed: 0, flags: 0 },
            },
        ).bind(|reply: AdlReply| Dialogue::End(od5_speed(reply))),
        Dialogue::End(None),
    )
}

/// The temperature that a reply carries, if there is one. Values above 1000 are thousandths of
/// a degree.
pub open spec fn temperature_of(reply: AdlReply) -> Option<Temperature> {
    match reply {
        AdlReply::TemperatureRead { status, temperature } => if status != 0 || temperature <= 0 {
            None
        } else if temperature > 1000 {
            Some(Temperature::Millidegrees(temperature as u32))
        } else {
            Some(Temperature::Celsius(temperature as u32))
        },
        _ => None,
    }
}

/// Reads the temperature of a card.
pub open spec fn reading_temp(adapter: i32) -> AdlTalk<Option<Temperature>> {
    choosing(
        having(AdlRequest::Find(AdlFunction::Od5TemperatureGet)),
        asking(AdlRequest::GetTemperature { adapter, size: 8 }).bind(
            |reply: AdlReply| Dialogue::End(temperature_of(reply)),
        ),
        Dialogue::End(None),
    )
}

/// Looks up both functions of OverdriveN; ends with whether both are there.
pub open spec fn having_odn() -> AdlTalk<bool> {
    having(AdlRequest::Find(AdlFunction::OdnFanControlGet)).bind(
        |get: bool|
            having(AdlRequest::Find(AdlFunction::OdnFanControlSet)).bind(
                |set: bool| Dialogue::End(get && set),
            ),
    )
}

/// The OverdriveN settings that a reply carries, if they could be read.
pub open spec fn control_of(reply: AdlReply) -> Option<AdlOdnFanControl> {
    match reply {
        AdlReply::FanControl { status, control } => if status == 0 {
            Some(control)
        } else {
            None
        },
        _ => None,
    }
}

/// `pct`, but not less than 20 and not more than 100.
pub open spec fn card_level(pct: u8) -> i32 {
    if pct < 20 {
        20
    } else if pct > 100 {
        100
    } else {
        pct as i32
    }
}

/// Sets a fan by OverdriveN, or by Overdrive5 where that does not succeed.
pub open spec fn applying_pct(adapter: i32, pct: u8) -> AdlTalk<Result<(), AmdError>> {
    choosing(
        having_odn(),
        asking(AdlRequest::GetFanControl { adapter }).bind(
            |reply: AdlReply|
                match control_of(reply) {
                    Some(control) => choosing(
                        calling(
                            AdlRequest::SetFanControl {
                                adapter,
                                control: AdlOdnFanControl {
                                    mode: 1,
                                    target_fan_speed: card_level(pct),
                                    ..control
                                },
                            },
                        ),
                        Dialogue::End(Ok(())),
                        applying_od5_pct(adapter, pct),
                    ),
                    None => applying_od5_pct(adapter, pct),
                },
        ),
        applying_od5_pct(adapter, pct),
    )
}

/// Sets a fan by Overdrive5.
pub open spec fn applying_od5_pct(adapter: i32, pct: u8) -> AdlTalk<Result<(), AmdError>> {
    choosing(
        having(AdlRequest::Find(AdlFunction::Od5FanSpeedSet)),
        choosing(
            calling(
                AdlRequest::SetFanSpeed {
                    adapter,
                    value: AdlFanSpeedValue {
                        size: 16,
                        speed_type: 2,
                        fan_speed: card_level(pct),
                        flags: 1,
                    },
                },
            ),
            Dialogue::End(Ok(())),
            Dialogue::End(Err(AmdError::ControlFailed { adapter })),
        ),
        Dialogue::End(Err(AmdError::ControlFailed { adapter })),
    )
}

/// Hands a fan back by OverdriveN, or by Overdrive5 where the settings cannot be read. Whether
/// the OverdriveN settings were taken over makes no difference.
pub open spec fn resetting_fan(adapter: i32) -> AdlTalk<Result<(), AmdError>> {
    choosing(
        having_odn(),
        asking(AdlRequest::GetFanControl { adapter }).bind(
            |reply: AdlReply|
                match control_of(reply) {
                    Some(control) => calling(
                        AdlRequest::SetFanControl {
                            adapter,
                            control: AdlOdnFanControl { mode: 0, ..control },
                        },
                    ).followed_by(Dialogue::End(Ok(()))),
                    None => resetting_od5_fan(adapter),
                },
        ),
        resetting_od5_fan(adapter),
    )
}

/// Hands a fan back by Overdrive5.
pub open spec fn resetting_od5_fan(adapter: i32) -> AdlTalk<Result<(), AmdError>> {
    choosing(
        having(AdlRequest::Find(AdlFunction::Od5FanSpeedToDefault)),
        choosing(
            calling(AdlRequest::SetFanSpeedToDefault { adapter }),
            Dialogue::End(Ok(())),
            Dialogue::End(Err(AmdError::ResetFailed)),
        ),
        Dialogue::End(Err(AmdError::ResetFailed)),
    )
}

/// The identifier of an adapter's fan.
pub open spec fn fan_id_of(adapter: i32) -> Seq<char> {
    "amd:"@ + signed_digits(adapter as int)
}

/// The number of the adapter whose fan an identifier names.
pub open spec fn adapter_number(id: Seq<char>) -> Result<i32, AmdError> {
    if !begins_with(id, "amd:"@) {
        Err(AmdError::NotAmd)
    } else {
        match parsed_i32(without_prefix(id, "amd:"@)) {
            Some(n) => Ok(n as i32),
            None => Err(AmdError::BadNumber),
        }
    }
}

/// An adapter's fan as it is reported.
pub open spec fn adapter_fan(
    adapter: AdapterView,
    pct: Option<u8>,
    temperature: Option<Temperature>,
) -> FanView {
    FanView {
        id: fan_id_of(adapter.index),
        label: adapter.name + " Fan"@,
        fan_type: FanType::Amd,
        mode: FanMode::Auto,
        rpm: None,
        speed_pct: pct,
        temperature,
        rpm_min: Some(0),
        rpm_max: None,
        controllable: true,
        is_pump: false,
    }
}

/// Reads the fans of the given adapters and adds them to the ones in `found`.
pub open spec fn scanning_from(adapters: Seq<AdapterView>, found: Seq<FanView>) -> AdlTalk<
    Seq<FanView>,
>
    decreases adapters.len(),
{
    if adapters.len() == 0 {
        Dialogue::End(found)
    } else {
        reading_pct(adapters[0].index).bind(
            |pct: Option<u8>|
                reading_temp(adapters[0].index).bind(
                    |temperature: Option<Temperature>|
                        scanning_from(
                            adapters.drop_first(),
                            found.push(adapter_fan(adapters[0], pct, temperature)),
                        ),
                ),
        )
    }
}

/// Reads the fans of all adapters; there are none without the library and a context.
pub open spec fn scanning(b: AmdView) -> AdlTalk<Seq<FanView>> {
    if b.lib && b.ctx {
        scanning_from(b.adapters, seq![])
    } else {
        Dialogue::End(seq![])
    }
}

/// Sets the fan that an identifier names.
pub open spec fn setting_speed(b: AmdView, id: Seq<char>, pct: u8) -> AdlTalk<
    Result<(), AmdError>,
> {
    match adapter_number(id) {
        Err(e) => Dialogue::End(Err(e)),
        Ok(adapter) => if b.lib {
            applying_pct(adapter, pct)
        } else {
            Dialogue::End(Err(AmdError::NotLoaded))
        },
    }
}

/// Hands the fan that an identifier names back to automatic control.
pub open spec fn resetting(b: AmdView, id: Seq<char>) -> AdlTalk<Result<(), AmdError>> {
    match adapter_number(id) {
        Err(e) => Dialogue::End(Err(e)),
        Ok(adapter) => if b.lib {
            resetting_fan(adapter)
        } else {
            Dialogue::End(Err(AmdError::NotLoaded))
        },
    }
}

/// Gives the context back, if there is one and the function for it.
pub open spec fn closing(b: AmdView) -> AdlTalk<()> {
    if b.lib && b.ctx {
        choosing(
            having(AdlRequest::Find(AdlFunction::Destroy)),
            asking(AdlRequest::Destroy).followed_by(Dialogue::End(())),
            Dialogue::End(()),
        )
    } else {
        Dialogue::End(())
    }
}

/// The identifier of an adapter's fan names that adapter, and different adapters have different
/// identifiers.
pub proof fn lemma_fan_ids(adapter: i32, other: i32)
    ensures
        adapter_number(fan_id_of(adapter)) == Ok::<i32, AmdError>(adapter),
        adapter != other ==> fan_id_of(adapter) != fan_id_of(other),
{
    lemma_fan_id(adapter);
    lemma_fan_id(other);
}

proof fn lemma_fan_id(adapter: i32)
    ensures
        adapter_number(fan_id_of(adapter)) == Ok::<i32, AmdError>(adapter),
{
    reveal_strlit("amd:");
    let number = signed_digits(adapter as int);
    lemma_signed_digits_parse(adapter);
    assert(number[0] != 'a') by {
        if adapter >= 0 {
            lemma_digits_numeral(adapter as nat);
            assert(is_digit(number[0]));
        }
    }
    assert(!begins_with(number, "amd:"@)) by {
        if begins_with(number, "amd:"@) {
            assert(number.subrange(0, 4)[0] == number[0]);
        }
    }
    lemma_prefix_comes_off("amd:"@, number);
}

/// A card is never set below 20 percent nor above 100: other speeds are the same as these.
pub proof fn lemma_safety_floor(pct: u8)
    ensures
        20 <= card_level(pct) <= 100,
        20 <= pct <= 100 ==> card_level(pct) == pct,
{
}

/// Only adapters that are present and made by AMD are taken, each one of the described ones.
pub proof fn lemma_taken(infos: Seq<AdlAdapterInfo>, i: int)
    requires
        0 <= i < taken_adapters(infos).len(),
    ensures
        exists|k: int|
            0 <= k < infos.len() && is_taken(#[trigger] infos[k]) && taken_adapters(infos)[i]
                == (AdapterView { index: infos[k].index, name: adapter_name(infos[k]) }),
    decreases infos.len(),
{
    let before = taken_adapters(infos.drop_last());
    if i < before.len() {
        lemma_taken(infos.drop_last(), i);
        let k = choose|k: int|
            0 <= k < infos.drop_last().len() && is_taken(#[trigger] infos.drop_last()[k])
                && before[i] == (AdapterView {
                index: infos.drop_last()[k].index,
                name: adapter_name(infos.drop_last()[k]),
            });
        assert(is_taken(infos[k]));
    } else {
        assert(is_taken(infos[infos.len() - 1]));
    }
}

/// A card with the functions that the library has for it.
pub struct CardModel {
    pub functions: Set<AdlFunction>,
    /// The OverdriveN settings.
    pub control: AdlOdnFanControl,
    /// The Overdrive5 speed that was set, if one was.
    pub speed: Option<i32>,
}

/// How a card reacts to a request, each of which succeeds.
pub open spec fn card() -> spec_fn(CardModel, AdlRequest) -> (CardModel, AdlReply) {
    |m: CardModel, request: AdlRequest|
        match request {
            AdlRequest::Find(f) => (m, AdlReply::Present(m.functions.contains(f))),
            AdlRequest::GetFanControl { .. } => (
                m,
                AdlReply::FanControl { status: 0, control: m.control },
            ),
            AdlRequest::SetFanControl { control, .. } => (
                CardModel { control, ..m },
                AdlReply::Status(0),
            ),
            AdlRequest::SetFanSpeed { value, .. } => (
                CardModel { speed: Some(value.fan_speed), ..m },
                AdlReply::Status(0),
            ),
            AdlRequest::SetFanSpeedToDefault { .. } => (
                CardModel { speed: None, ..m },
                AdlReply::Status(0),
            ),
            _ => (m, AdlReply::Status(1)),
        }
}

/// Whether the library has OverdriveN for a card.
pub open spec fn has_odn(m: CardModel) -> bool {
    m.functions.contains(AdlFunction::OdnFanControlGet) && m.functions.contains(
        AdlFunction::OdnFanControlSet,
    )
}

/// Setting a card puts its fan into manual mode at the speed and keeps all other settings.
pub proof fn lemma_set(m: CardModel, adapter: i32, pct: u8)
    requires
        has_odn(m) || m.functions.contains(AdlFunction::Od5FanSpeedSet),
    ensures
        converse(applying_pct(adapter, pct), m, card()) == (
            if has_odn(m) {
                CardModel {
                    control: AdlOdnFanControl {
                        mode: 1,
                        target_fan_speed: card_level(pct),
                        ..m.control
                    },
                    ..m
                }
            } else {
                CardModel { speed: Some(card_level(pct)), ..m }
            },
            Ok::<(), AmdError>(()),
        ),
{
    broadcast use crate::session::group_converse;

}

/// Handing a card back puts its fan into automatic mode and keeps all other settings.
pub proof fn lemma_reset(m: CardModel, adapter: i32)
    requires
        has_odn(m) || m.functions.contains(AdlFunction::Od5FanSpeedToDefault),
    ensures
        converse(resetting_fan(adapter), m, card()) == (
            if has_odn(m) {
                CardModel { control: AdlOdnFanControl { mode: 0, ..m.control }, ..m }
            } else {
                CardModel { speed: None, ..m }
            },
            Ok::<(), AmdError>(()),
        ),
{
    broadcast use crate::session::group_converse;

}

impl AdlFunction {
    /// The name by which the library exports the function.
    pub open spec fn export(self) -> Seq<char> {
        match self {
            AdlFunction::Create => "ADL2_Main_Control_Create"@,
            AdlFunction::Destroy => "ADL2_Main_Control_Destroy"@,
            AdlFunction::NumberOfAdapters => "ADL2_Adapter_NumberOfAdapters_Get"@,
            AdlFunction::AdapterInfo => "ADL2_Adapter_AdapterInfo_Get"@,
            AdlFunction::OdnFanControlGet => "ADL2_OverdriveN_FanControl_Get"@,
            AdlFunction::OdnFanControlSet => "ADL2_OverdriveN_FanControl_Set"@,
            AdlFunction::Od5FanSpeedGet => "ADL2_Overdrive5_FanSpeed_Get"@,
            AdlFunction::Od5FanSpeedSet => "ADL2_Overdrive5_FanSpeed_Set"@,
            AdlFunction::Od5FanSpeedToDefault => "ADL2_Overdrive5_FanSpeedToDefault_Set"@,
            AdlFunction::Od5TemperatureGet => "ADL2_Overdrive5_Temperature_Get"@,
        }
    }

    /// The name by which the library exports the function.
    pub fn symbol(&self) -> (out: &'static str)
        ensures
            out@ == self.export(),
    {
        match self {
            AdlFunction::Create => "ADL2_Main_Control_Create",
            AdlFunction::Destroy => "ADL2_Main_Control_Destroy",
            AdlFunction::NumberOfAdapters => "ADL2_Adapter_NumberOfAdapters_Get",
            AdlFunction::AdapterInfo => "ADL2_Adapter_AdapterInfo_Get",
            AdlFunction::OdnFanControlGet => "ADL2_OverdriveN_FanControl_Get",
            AdlFunction::OdnFanControlSet => "ADL2_OverdriveN_FanControl_Set",
            AdlFunction::Od5FanSpeedGet => "ADL2_Overdrive5_FanSpeed_Get",
            AdlFunction::Od5FanSpeedSet => "ADL2_Overdrive5_FanSpeed_Set",
            AdlFunction::Od5FanSpeedToDefault => "ADL2_Overdrive5_FanSpeedToDefault_Set",
            AdlFunction::Od5TemperatureGet => "ADL2_Overdrive5_Temperature_Get",
        }
    }
}

impl AmdError {
    /// The error in words; there are none for a number that cannot be read, which is for the
    /// number's reader to explain.
    pub fn message(&self) -> (out: Option<String>)
        ensures
            match *self {
                AmdError::NotAmd => out matches Some(text) && text@ == "not amd"@,
                AmdError::BadNumber => out is None,
                AmdError::NotLoaded => out matches Some(text) && text@ == "ADL not loaded"@,
                AmdError::ControlFailed { adapter } => out matches Some(text) && text@
                    == "ADL fan control failed for adapter "@ + signed_digits(adapter as int),
                AmdError::ResetFailed => out matches Some(text) && text@ == "ADL reset failed"@,
            },
    {
        match self {
            AmdError::NotAmd => Some("not amd".to_owned()),
            AmdError::BadNumber => None,
            AmdError::NotLoaded => Some("ADL not loaded".to_owned()),
            AmdError::ControlFailed { adapter } => {
                let mut out = "ADL fan control failed for adapter ".to_owned();
                push_signed(&mut out, *adapter);
                Some(out)
            },
            AmdError::ResetFailed => Some("ADL reset failed".to_owned()),
        }
    }
}

impl Session<AdlReply> {
    fn has(&mut self, request: AdlRequest) -> (out: Result<bool, AdlRequest>)
        ensures
            ran(having(request), old(self).remaining(), final(self).remaining(), out),
    {
        match self.ask(request)? {
            AdlReply::Present(present) => Ok(present),
            _ => Ok(false),
        }
    }

    fn call(&mut self, request: AdlRequest) -> (out: Result<bool, AdlRequest>)
        ensures
            ran(calling(request), old(self).remaining(), final(self).remaining(), out),
    {
        match self.ask(request)? {
            AdlReply::Status(status) => Ok(status == 0),
            _ => Ok(false),
        }
    }

    fn has_odn(&mut self) -> (out: Result<bool, AdlRequest>)
        ensures
            ran(having_odn(), old(self).remaining(), final(self).remaining(), out),
    {
        let get = self.has(AdlRequest::Find(AdlFunction::OdnFanControlGet))?;
        let set = self.has(AdlRequest::Find(AdlFunction::OdnFanControlSet))?;
        Ok(get && set)
    }

    fn get_fan_control(&mut self, adapter: i32) -> (out: Result<
        Option<AdlOdnFanControl>,
        AdlRequest,
    >)
        ensures
            ran(
                asking(AdlRequest::GetFanControl { adapter }).bind(
                    |reply: AdlReply| Dialogue::End(control_of(reply)),
                ),
                old(self).remaining(),
                final(self).remaining(),
                out,
            ),
    {
        match self.ask(AdlRequest::GetFanControl { adapter })? {
            AdlReply::FanControl { status, control } => if status == 0 {
                Ok(Some(control))
            } else {
                Ok(None)
            },
            _ => Ok(None),
        }
    }
}

fn cut_pct(speed: i32) -> (out: u8)
    ensures
        out == as_pct(speed),
{
    if speed < 0 {
        0
    } else if speed > 100 {
        100
    } else {
        speed as u8
    }
}

fn level_of(pct: u8) -> (out: i32)
    ensures
        out == card_level(pct),
{
    if pct < 20 {
        20
    } else if pct > 100 {
        100
    } else {
        pct as i32
    }
}

fn name_adapter(info: &AdlAdapterInfo) -> (out: String)
    ensures
        out@ == adapter_name(*info),
{
    let name = trim(info.name.as_str());
    if name.is_empty() {
        let mut out = "AMD GPU ".to_owned();
        push_signed(&mut out, info.index);
        out
    } else {
        name.to_owned()
    }
}

/// The adapters that are taken of the described ones, in their order.
pub fn take_adapters(infos: &Vec<AdlAdapterInfo>) -> (adapters: Vec<AdlAdapter>)
    ensures
        adapter_views(adapters@) == taken_adapters(infos@),
{
    let mut adapters: Vec<AdlAdapter> = Vec::new();
    let mut i: usize = 0;
    assert(adapter_views(adapters@) =~= seq![]);
    assert(infos@.take(0) =~= seq![]);
    while i < infos.len()
        invariant
            i <= infos@.len(),
            adapter_views(adapters@) == taken_adapters(infos@.take(i as int)),
        decreases infos.len() - i,
    {
        let ghost before = adapter_views(adapters@);
        let info = &infos[i];
        if info.present != 0 && info.vendor_id == AMD_VENDOR {
            let adapter = AdlAdapter { index: info.index, name: name_adapter(info) };
            adapters.push(adapter);
            assert(adapter_views(adapters@) =~= before.push(adapter@));
        }
        assert(infos@.take(i + 1).drop_last() =~= infos@.take(i as int));
        i = i + 1;
    }
    assert(infos@.take(i as int) =~= infos@);
    adapters
}

fn adapter_of(fan_id: &str) -> (out: Result<i32, AmdError>)
    ensures
        out == adapter_number(fan_id@),
{
    let id = chars_of(fan_id);
    let prefix = chars_of("amd:");
    if !begins(&id, &prefix) {
        return Err(AmdError::NotAmd);
    }
    match parse_i32(&strip_prefix(&id, &prefix)) {
        Some(adapter) => Ok(adapter),
        None => Err(AmdError::BadNumber),
    }
}

/// A backend as its contents, or the request that is to be performed next.
pub open spec fn backend_view(out: Result<AmdBackend, AdlRequest>) -> Result<AmdView, AdlRequest> {
    match out {
        Ok(b) => Ok(b@),
        Err(request) => Err(request),
    }
}

impl AmdBackend {
    fn absent() -> (out: Self)
        ensures
            out@ == unloaded(),
    {
        let b = AmdBackend { lib: false, ctx: false, adapters: Vec::new() };
        assert(b@ =~= unloaded());
        b
    }

    /// Loads the library and lists the adapters. A backend without the library drives no fans.
    pub fn new(r: &mut AdlSession) -> (out: Result<Self, AdlRequest>)
        ensures
            ran(opening(), old(r).remaining(), final(r).remaining(), backend_view(out)),
    {
        if !r.has(AdlRequest::LoadLibrary { other: false })? {
            if !r.has(AdlRequest::LoadLibrary { other: true })? {
                return Ok(Self::absent());
            }
        }
        Self::try_init(r)
    }

    /// Makes a context in the loaded library and lists the adapters.
    fn try_init(r: &mut AdlSession) -> (out: Result<Self, AdlRequest>)
        ensures
            ran(creating(), old(r).remaining(), final(r).remaining(), backend_view(out)),
    {
        if !r.has(AdlRequest::Find(AdlFunction::Create))? {
            return Ok(Self::absent());
        }
        let (status, context): (i32, bool) = match r.ask(AdlRequest::Create)? {
            AdlReply::Created { status, context } => (status, context),
            _ => return Ok(Self::absent()),
        };
        if status != 0 {
            return Ok(Self::absent());
        }
        if !r.has(AdlRequest::Find(AdlFunction::NumberOfAdapters))? {
            return Ok(Self::absent());
        }
        let count: i32 = match r.ask(AdlRequest::CountAdapters)? {
            AdlReply::Count(count) => count,
            _ => 0,
        };
        if count == 0 {
            return Ok(Self::absent());
        }
        let adapters = if r.has(AdlRequest::Find(AdlFunction::AdapterInfo))? {
            match r.ask(AdlRequest::DescribeAdapters { count })? {
                AdlReply::Adapters(infos) => take_adapters(&infos),
                _ => Vec::new(),
            }
        } else {
            Vec::new()
        };
        let b = AmdBackend { lib: true, ctx: context, adapters };
        assert(adapter_views(Seq::<AdlAdapter>::empty()) =~= seq![]);
        Ok(b)
    }

    /// The backend's name.
    pub fn name(&self) -> (out: &'static str)
        ensures
            out@ == "amd_adl"@,
    {
        "amd_adl"
    }

    /// Speed of an adapter's fan in percent.
    pub fn read_fan_pct(r: &mut AdlSession, adapter: i32) -> (out: Result<
        Option<u8>,
        AdlRequest,
    >)
        ensures
            ran(reading_pct(adapter), old(r).remaining(), final(r).remaining(), out),
    {
        if r.has(AdlRequest::Find(AdlFunction::OdnFanControlGet))? {
            if let AdlReply::FanControl { status, control } = r.ask(
                AdlRequest::GetFanControl { adapter },
            )? {
                if status == 0 && control.current_fan_speed > 0 {
                    return Ok(Some(cut_pct(control.current_fan_speed)));
                }
            }
        }
        if r.has(AdlRequest::Find(AdlFunction::Od5FanSpeedGet))? {
            let value = AdlFanSpeedValue { size: 16, speed_type: 2, fan_speed: 0, flags: 0 };
            if let AdlReply::FanSpeed { status, speed } = r.ask(
                AdlRequest::GetFanSpeed { adapter, value },
            )? {
                if status == 0 {
                    return Ok(Some(cut_pct(speed)));
                }
            }
        }
        Ok(None)
    }

    /// Temperature of an adapter.
    pub fn read_temp(r: &mut AdlSession, adapter: i32) -> (out: Result<
        Option<Temperature>,
        AdlRequest,
    >)
        ensures
            ran(reading_temp(adapter), old(r).remaining(), final(r).remaining(), out),
    {
        if r.has(AdlRequest::Find(AdlFunction::Od5TemperatureGet))? {
            if let AdlReply::TemperatureRead { status, temperature } = r.ask(
                AdlRequest::GetTemperature { adapter, size: 8 },
            )? {
                if status == 0 && temperature > 0 {
                    return Ok(
                        Some(
                            if temperature > 1000 {
                                Temperature::Millidegrees(temperature as u32)
                            } else {
                                Temperature::Celsius(temperature as u32)
                            },
                        ),
                    );
                }
            }
        }
        Ok(None)
    }

    /// Sets an adapter's fan to `pct` percent, at least 20 and at most 100.
    pub fn apply_pct(r: &mut AdlSession, adapter: i32, pct: u8) -> (out: Result<
        Result<(), AmdError>,
        AdlRequest,
    >)
        ensures
            ran(applying_pct(adapter, pct), old(r).remaining(), final(r).remaining(), out),
    {
        let level: i32 = level_of(pct);
        if r.has_odn()? {
            if let Some(read) = r.get_fan_control(adapter)? {
                let mut control = read;
                control.mode = 1;
                control.target_fan_speed = level;
                if r.call(AdlRequest::SetFanControl { adapter, control })? {
                    return Ok(Ok(()));
                }
            }
        }
        if r.has(AdlRequest::Find(AdlFunction::Od5FanSpeedSet))? {
            let value = AdlFanSpeedValue { size: 16, speed_type: 2, fan_speed: level, flags: 1 };
            if r.call(AdlRequest::SetFanSpeed { adapter, value })? {
                return Ok(Ok(()));
            }
        }
        Ok(Err(AmdError::ControlFailed { adapter }))
    }

    /// Hands an adapter's fan back to automatic control.
    pub fn reset_fan(r: &mut AdlSession, adapter: i32) -> (out: Result<
        Result<(), AmdError>,
        AdlRequest,
    >)
        ensures
            ran(resetting_fan(adapter), old(r).remaining(), final(r).remaining(), out),
    {
        if r.has_odn()? {
            if let Some(read) = r.get_fan_control(adapter)? {
                let mut control = read;
                control.mode = 0;
                r.call(AdlRequest::SetFanControl { adapter, control })?;
                return Ok(Ok(()));
            }
        }
        if r.has(AdlRequest::Find(AdlFunction::Od5FanSpeedToDefault))? {
            if r.call(AdlRequest::SetFanSpeedToDefault { adapter })? {
                return Ok(Ok(()));
            }
        }
        Ok(Err(AmdError::ResetFailed))
    }

    /// The fans of all adapters.
    pub fn scan(&self, r: &mut AdlSession) -> (out: Result<Vec<FanInfo>, AdlRequest>)
        ensures
            ran(
                scanning(self@),
                old(r).remaining(),
                final(r).remaining(),
                match out {
                    Ok(fans) => Ok(fan_views(fans@)),
                    Err(request) => Err(request),
                },
            ),
    {
        let mut fans: Vec<FanInfo> = Vec::new();
        assert(fan_views(fans@) =~= seq![]);
        if !self.lib || !self.ctx {
            return Ok(fans);
        }
        let mut i: usize = 0;
        assert(self@.adapters.skip(0) =~= self@.adapters);
        while i < self.adapters.len()
            invariant
                i <= self.adapters@.len(),
                replay(scanning(self@), old(r).remaining()) == replay(
                    scanning_from(self@.adapters.skip(i as int), fan_views(fans@)),
                    r.remaining(),
                ),
            decreases self.adapters.len() - i,
        {
            let ghost found = fan_views(fans@);
            let ghost rest = self@.adapters.skip(i as int);
            let adapter = &self.adapters[i];
            assert(rest[0] == adapter@);
            assert(rest.drop_first() =~= self@.adapters.skip(i + 1));
            let speed_pct = Self::read_fan_pct(r, adapter.index)?;
            let temperature = Self::read_temp(r, adapter.index)?;
            let mut id = "amd:".to_owned();
            push_signed(&mut id, adapter.index);
            let mut label = adapter.name.clone();
            label.append(" Fan");
            let fan = FanInfo {
                id,
                label,
                fan_type: FanType::Amd,
                mode: FanMode::Auto,
                rpm: None,
                speed_pct,
                temperature,
                rpm_min: Some(0),
                rpm_max: None,
                controllable: true,
                is_pump: false,
            };
            assert(fan@ == adapter_fan(adapter@, speed_pct, temperature));
            fans.push(fan);
            assert(fan_views(fans@) =~= found.push(fan@));
            i = i + 1;
        }
        Ok(fans)
    }

    /// Sets the fan that an identifier names to `pct` percent, at least 20 and at most 100.
    pub fn set_speed_pct(&self, r: &mut AdlSession, fan_id: &str, pct: u8) -> (out: Result<
        Result<(), AmdError>,
        AdlRequest,
    >)
        ensures
            ran(setting_speed(self@, fan_id@, pct), old(r).remaining(), final(r).remaining(), out),
    {
        let adapter: i32 = match adapter_of(fan_id) {
            Ok(adapter) => adapter,
            Err(e) => return Ok(Err(e)),
        };
        if !self.lib {
            return Ok(Err(AmdError::NotLoaded));
        }
        Self::apply_pct(r, adapter, pct)
    }

    /// Hands the fan that an identifier names back to automatic control.
    pub fn reset_to_auto(&self, r: &mut AdlSession, fan_id: &str) -> (out: Result<
        Result<(), AmdError>,
        AdlRequest,
    >)
        ensures
            ran(resetting(self@, fan_id@), old(r).remaining(), final(r).remaining(), out),
    {
        let adapter: i32 = match adapter_of(fan_id) {
            Ok(adapter) => adapter,
            Err(e) => return Ok(Err(e)),
        };
        if !self.lib {
            return Ok(Err(AmdError::NotLoaded));
        }
        Self::reset_fan(r, adapter)
    }

    /// Gives the context back; after that there is none.
    pub fn close(&mut self, r: &mut AdlSession) -> (out: Result<(), AdlRequest>)
        ensures
            ran(closing(old(self)@), old(r).remaining(), final(r).remaining(), out),
            match out {
                Ok(()) => final(self)@ == (AmdView {
                    ctx: old(self)@.ctx && !old(self)@.lib,
                    ..old(self)@
                }),
                Err(_) => final(self)@ == old(self)@,
            },
    {
        if self.lib && self.ctx {
            if r.has(AdlRequest::Find(AdlFunction::Destroy))? {
                r.ask(AdlRequest::Destroy)?;
            }
            self.ctx = false;
        }
        Ok(())
    }
}

} // verus!
