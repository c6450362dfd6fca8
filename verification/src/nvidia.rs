//! The fans of NVIDIA graphics cards.
//!
//! The cards are read through NVML. NVML does not let consumer cards be controlled, so they are
//! set through the driver's private interface.
use vstd::prelude::*;

use crate::fan::{fan_views, FanInfo, FanMode, FanType, FanView, Temperature};
use crate::nvapi::{setting_fans, viewed, NvApi, NvError, NvRequest, NvSession, NvTalk};
use crate::nvml::{
    connect, device_by_index, device_count, device_fan_rpm, device_fan_speed, device_name,
    device_num_fans, device_temperature, Answer, Question, Reached,
};
use crate::session::{ran, Dialogue};
use crate::text::{
    begins, begins_with, chars_of, digits, is_digit, lemma_digits_numeral, lemma_digits_parse,
    lemma_prefix_comes_off, parse_u32, parsed_unsigned, part_of, push_number, strip_prefix,
    without_prefix,
};

verus! {

broadcast use crate::session::group_replay;

/// What NVML says of one fan.
pub struct GpuFanReading {
    /// Speed in revolutions per minute.
    pub rpm: Answer<u32>,
    /// Speed in percent.
    pub speed: Answer<u32>,
}

/// What NVML says of one card.
pub struct GpuReading {
    pub name: Answer<String>,
    /// Temperature in degrees Celsius.
    pub temperature: Answer<u32>,
    pub num_fans: Answer<u32>,
    pub fans: Vec<GpuFanReading>,
}

/// What NVML says of the card of number `index`.
pub struct GpuAnswer {
    pub index: u32,
    /// Whether the card can be reached.
    pub contact: Answer<()>,
    /// What it says of a card that can be reached.
    pub gpu: Option<GpuReading>,
}

/// What NVML says of all cards: how many there are, and then each of them.
pub struct NvmlReport {
    /// The number of cards; where NVML has no answer there are none.
    pub count: Answer<u32>,
    pub gpus: Vec<GpuAnswer>,
}

/// Why a fan of a card cannot be driven.
#[derive(Clone, Copy, PartialEq, Eq, Structural, Debug)]
pub enum NvidiaError {
    /// The fan belongs to another backend.
    NotNvidia,
    /// The number of the card or of the fan cannot be read.
    BadNumber,
    /// The private interface is not there to set a speed.
    NoControlApi,
    /// The private interface is not there to hand a fan back.
    NoResetApi,
    /// The private interface refused.
    Api(NvError),
}

/// The fans of NVIDIA graphics cards.
pub struct NvidiaBackend {
    nvml: Answer<nvml_wrapper::Nvml>,
    nvapi: Option<NvApi>,
}

/// How many fans are reported of a card: at least one, even where NVML has no answer.
pub open spec fn fans_on(num_fans: Option<u32>) -> u32 {
    match num_fans {
        Some(n) => if n < 1 {
            1
        } else {
            n
        },
        None => 1,
    }
}

/// The identifier of a fan.
pub open spec fn fan_id_of(gpu: u32, fan: u32) -> Seq<char> {
    "nvidia:"@ + digits(gpu as nat) + ":"@ + digits(fan as nat)
}

/// The name of a card.
pub open spec fn name_of(name: Option<String>) -> Seq<char> {
    match name {
        Some(n) => n@,
        None => "NVIDIA GPU"@,
    }
}

/// The label of a fan; the only fan of a card has no number.
pub open spec fn label_of(name: Seq<char>, count: u32, fan: u32) -> Seq<char> {
    if count == 1 {
        name + " Fan"@
    } else {
        name + " Fan "@ + digits((fan + 1) as nat)
    }
}

/// The speed of a fan in revolutions per minute, nothing for a fan that was not read.
pub open spec fn rpm_of(gpu: GpuReading, fan: int) -> Option<u32> {
    if fan < gpu.fans@.len() {
        gpu.fans@[fan].rpm.answer()
    } else {
        None
    }
}

/// The speed of a fan in percent, nothing for a fan that was not read.
pub open spec fn speed_of(gpu: GpuReading, fan: int) -> Option<u32> {
    if fan < gpu.fans@.len() {
        gpu.fans@[fan].speed.answer()
    } else {
        None
    }
}

/// A fan of a card as it is reported.
pub open spec fn card_fan(index: u32, gpu: GpuReading, fan: int) -> FanView {
    FanView {
        id: fan_id_of(index, fan as u32),
        label: label_of(name_of(gpu.name.answer()), fans_on(gpu.num_fans.answer()), fan as u32),
        fan_type: FanType::Nvidia,
        mode: FanMode::Auto,
        rpm: rpm_of(gpu, fan),
        speed_pct: match speed_of(gpu, fan) {
            Some(s) => Some(
                if s > 100 {
                    100u8
                } else {
                    s as u8
                },
            ),
            None => None,
        },
        temperature: match gpu.temperature.answer() {
            Some(t) => Some(Temperature::Celsius(t)),
            None => None,
        },
        rpm_min: Some(0),
        rpm_max: Some(3500),
        controllable: true,
        is_pump: false,
    }
}

/// The fans of a card that can be reached, as they are reported.
pub open spec fn gpu_fans(index: u32, gpu: GpuReading) -> Seq<FanView> {
    Seq::new(fans_on(gpu.num_fans.answer()) as nat, |fan: int| card_fan(index, gpu, fan))
}

/// The fans of a card as they are reported; there are none of a card that cannot be reached.
pub open spec fn card_fans(answer: GpuAnswer) -> Seq<FanView> {
    match answer.gpu {
        Some(gpu) => gpu_fans(answer.index, gpu),
        None => seq![],
    }
}

/// The fans of all cards as they are reported.
pub open spec fn all_fans(gpus: Seq<GpuAnswer>) -> Seq<FanView>
    decreases gpus.len(),
{
    if gpus.len() == 0 {
        seq![]
    } else {
        all_fans(gpus.drop_last()) + card_fans(gpus.last())
    }
}

/// Whether a reading answers what it should of the card of this number, and every fan of the
/// card was asked for, in the order of their numbers.
pub open spec fn asked_all_fans(index: u32, gpu: GpuReading) -> bool {
    &&& gpu.name.question() == (Question::Name { card: index })
    &&& gpu.temperature.question() == (Question::Temperature { card: index })
    &&& gpu.num_fans.question() == (Question::FanCount { card: index })
    &&& gpu.fans@.len() == fans_on(gpu.num_fans.answer())
    &&& forall|f: int| 0 <= f < gpu.fans@.len() ==> is_of(#[trigger] gpu.fans@[f], index, f)
}

/// Whether a reading answers what it should of this fan of this card.
pub open spec fn is_of(reading: GpuFanReading, index: u32, fan: int) -> bool {
    &&& reading.rpm.question() == (Question::Rpm { card: index, fan: fan as u32 })
    &&& reading.speed.question() == (Question::Percent { card: index, fan: fan as u32 })
}

/// Whether NVML was asked for the card of this number, and then for all that is read of a card
/// if it could be reached.
pub open spec fn asked_card(answer: GpuAnswer, index: int) -> bool {
    &&& answer.index == index
    &&& answer.contact.question() == (Question::Card { card: answer.index })
    &&& answer.gpu is Some == answer.contact.answer() is Some
    &&& answer.gpu matches Some(gpu) ==> asked_all_fans(answer.index, gpu)
}

/// Whether NVML was asked how many cards there are, and for every one of them in the order of
/// their numbers.
pub open spec fn asked_all_cards(report: NvmlReport) -> bool {
    &&& report.count.question() == Question::CardCount
    &&& report.gpus@.len() == (match report.count.answer() {
        Some(count) => count,
        None => 0,
    })
    &&& forall|i: int|
        0 <= i < report.gpus@.len() ==> asked_card(#[trigger] report.gpus@[i], i)
}

/// How far the first colon of a text is from its beginning.
pub open spec fn colon_at(s: Seq<char>) -> nat
    decreases s.len(),
{
    if s.len() == 0 || s[0] == ':' {
        0
    } else {
        1 + colon_at(s.drop_first())
    }
}

/// The numbers of the card and the fan that an identifier names. The number of the fan may be
/// left out, and is then zero.
pub open spec fn fan_numbers(id: Seq<char>) -> Result<(u32, u32), NvidiaError> {
    if !begins_with(id, "nvidia:"@) {
        Err(NvidiaError::NotNvidia)
    } else {
        let rest = without_prefix(id, "nvidia:"@);
        let colon = colon_at(rest) as int;
        let gpu = parsed_unsigned(rest.take(colon), u32::MAX as nat);
        let fan = if colon < rest.len() {
            parsed_unsigned(rest.skip(colon + 1), u32::MAX as nat)
        } else {
            Some(0)
        };
        match (gpu, fan) {
            (Some(g), Some(f)) => Ok((g as u32, f as u32)),
            _ => Err(NvidiaError::BadNumber),
        }
    }
}

/// `pct`, but not less than 30 and not more than 100.
pub open spec fn gpu_level(pct: u8) -> u8 {
    if pct < 30 {
        30
    } else if pct > 100 {
        100
    } else {
        pct
    }
}

/// An answer of the private interface as one of the backend.
pub open spec fn api_answer(res: Result<(), NvError>) -> Result<(), NvidiaError> {
    match res {
        Ok(()) => Ok(()),
        Err(e) => Err(NvidiaError::Api(e)),
    }
}

/// Sets the fans of the card that an identifier names, or hands them back.
pub open spec fn commanding(
    nvapi: Option<NvApi>,
    id: Seq<char>,
    level: Option<u8>,
    missing: NvidiaError,
) -> NvTalk<Result<(), NvidiaError>> {
    match fan_numbers(id) {
        Err(e) => Dialogue::End(Err(e)),
        Ok((gpu, fan)) => match nvapi {
            None => Dialogue::End(Err(missing)),
            Some(api) => setting_fans(api.gpu_count(), gpu as usize, level).bind(
                |res: Result<(), NvError>| Dialogue::End(api_answer(res)),
            ),
        },
    }
}

proof fn lemma_colon_at(s: Seq<char>, k: int)
    requires
        0 <= k <= s.len(),
        forall|i: int| 0 <= i < k ==> #[trigger] s[i] != ':',
        k < s.len() ==> s[k] == ':',
    ensures
        colon_at(s) == k,
    decreases k,
{
    if k > 0 {
        assert(s[0] != ':');
        assert forall|i: int| 0 <= i < k - 1 implies #[trigger] s.drop_first()[i] != ':' by {
            assert(s[i + 1] != ':');
        }
        lemma_colon_at(s.drop_first(), k - 1);
    }
}

/// The identifier of a fan names that fan's card and number.
pub proof fn lemma_fan_id(gpu: u32, fan: u32)
    ensures
        fan_numbers(fan_id_of(gpu, fan)) == Ok::<(u32, u32), NvidiaError>((gpu, fan)),
{
    reveal_strlit("nvidia:");
    reveal_strlit(":");
    let (g, f) = (digits(gpu as nat), digits(fan as nat));
    let rest = g + ":"@ + f;
    lemma_digits_numeral(gpu as nat);
    lemma_digits_numeral(fan as nat);
    lemma_digits_parse(gpu as nat, u32::MAX as nat);
    lemma_digits_parse(fan as nat, u32::MAX as nat);
    assert(is_digit(g[0]));
    assert(!begins_with(rest, "nvidia:"@)) by {
        if begins_with(rest, "nvidia:"@) {
            assert(rest.subrange(0, 7)[0] == rest[0]);
        }
    }
    assert(fan_id_of(gpu, fan) =~= "nvidia:"@ + rest);
    lemma_prefix_comes_off("nvidia:"@, rest);
    assert forall|i: int| 0 <= i < g.len() implies #[trigger] rest[i] != ':' by {
        assert(is_digit(g[i]));
    }
    lemma_colon_at(rest, g.len() as int);
    assert(rest.take(g.len() as int) =~= g);
    assert(rest.skip(g.len() as int + 1) =~= f);
}

/// An identifier without the number of a fan names the first fan of its card.
pub proof fn lemma_card_id(gpu: u32)
    ensures
        fan_numbers("nvidia:"@ + digits(gpu as nat)) == Ok::<(u32, u32), NvidiaError>((gpu, 0)),
{
    reveal_strlit("nvidia:");
    let g = digits(gpu as nat);
    lemma_digits_numeral(gpu as nat);
    lemma_digits_parse(gpu as nat, u32::MAX as nat);
    assert(is_digit(g[0]));
    assert(!begins_with(g, "nvidia:"@)) by {
        if begins_with(g, "nvidia:"@) {
            assert(g.subrange(0, 7)[0] == g[0]);
        }
    }
    lemma_prefix_comes_off("nvidia:"@, g);
    assert forall|i: int| 0 <= i < g.len() implies #[trigger] g[i] != ':' by {
        assert(is_digit(g[i]));
    }
    lemma_colon_at(g, g.len() as int);
    assert(g.take(g.len() as int) =~= g);
}

/// Different fans have different identifiers.
pub proof fn lemma_fan_ids_differ(gpu: u32, fan: u32, other_gpu: u32, other_fan: u32)
    requires
        (gpu, fan) != (other_gpu, other_fan),
    ensures
        fan_id_of(gpu, fan) != fan_id_of(other_gpu, other_fan),
{
    lemma_fan_id(gpu, fan);
    lemma_fan_id(other_gpu, other_fan);
}

/// Every fan that is listed can be driven, and its identifier names a card that was reached.
pub proof fn lemma_listed_fans(report: NvmlReport, i: int)
    requires
        asked_all_cards(report),
        0 <= i < all_fans(report.gpus@).len(),
    ensures
        all_fans(report.gpus@)[i].controllable,
        fan_numbers(all_fans(report.gpus@)[i].id) matches Ok((gpu, fan)) && gpu
            < report.gpus@.len() && report.gpus@[gpu as int].gpu is Some,
{
    assert forall|k: int| 0 <= k < report.gpus@.len() implies (
    #[trigger] report.gpus@[k]).index == k by {
        assert(asked_card(report.gpus@[k], k));
    }
    lemma_listed(report.gpus@, i);
}

proof fn lemma_listed(gpus: Seq<GpuAnswer>, i: int)
    requires
        forall|k: int| 0 <= k < gpus.len() ==> (#[trigger] gpus[k]).index == k,
        0 <= i < all_fans(gpus).len(),
    ensures
        all_fans(gpus)[i].controllable,
        fan_numbers(all_fans(gpus)[i].id) matches Ok((gpu, fan)) && gpu < gpus.len()
            && gpus[gpu as int].gpu is Some,
    decreases gpus.len(),
{
    let before = all_fans(gpus.drop_last());
    if i < before.len() {
        lemma_listed(gpus.drop_last(), i);
    } else {
        lemma_fan_id(gpus.last().index, (i - before.len()) as u32);
    }
}

/// A card is never set below 30 percent nor above 100: other speeds are the same as these.
pub proof fn lemma_safety_floor(pct: u8)
    ensures
        30 <= gpu_level(pct) <= 100,
        30 <= pct <= 100 ==> gpu_level(pct) == pct,
        pct < 30 ==> gpu_level(pct) == 30,
        pct > 100 ==> gpu_level(pct) == 100,
{
}

fn fan_total(num_fans: Option<u32>) -> (n: u32)
    ensures
        n == fans_on(num_fans),
{
    match num_fans {
        Some(n) => if n < 1 {
            1
        } else {
            n
        },
        None => 1,
    }
}

fn list_card(index: u32, gpu: &GpuReading, fans: &mut Vec<FanInfo>)
    ensures
        fan_views(final(fans)@) == fan_views(old(fans)@) + gpu_fans(index, *gpu),
{
    let ghost before = fan_views(fans@);
    let ghost all = gpu_fans(index, *gpu);
    let count: u32 = fan_total(*gpu.num_fans.value());
    let mut f: u32 = 0;
    assert(before + all.take(0) =~= before);
    while f < count
        invariant
            f <= count,
            count == fans_on(gpu.num_fans.answer()),
            all == gpu_fans(index, *gpu),
            fan_views(fans@) == before + all.take(f as int),
        decreases count - f,
    {
        let ghost found = fan_views(fans@);
        let mut id = String::new();
        id.append("nvidia:");
        push_number(&mut id, index as u64);
        id.append(":");
        push_number(&mut id, f as u64);
        assert(id@ =~= fan_id_of(index, f));
        let mut label = String::new();
        match gpu.name.value() {
            Some(name) => label.append(name.as_str()),
            None => label.append("NVIDIA GPU"),
        }
        if count == 1 {
            label.append(" Fan");
        } else {
            label.append(" Fan ");
            push_number(&mut label, f as u64 + 1);
        }
        assert(label@ =~= label_of(name_of(gpu.name.answer()), count, f));
        let (rpm, speed): (Option<u32>, Option<u32>) = if (f as usize) < gpu.fans.len() {
            (*gpu.fans[f as usize].rpm.value(), *gpu.fans[f as usize].speed.value())
        } else {
            (None, None)
        };
        let fan = FanInfo {
            id,
            label,
            fan_type: FanType::Nvidia,
            mode: FanMode::Auto,
            rpm,
            speed_pct: match speed {
                Some(s) => Some(
                    if s > 100 {
                        100
                    } else {
                        s as u8
                    },
                ),
                None => None,
            },
            temperature: match gpu.temperature.value() {
                Some(t) => Some(Temperature::Celsius(*t)),
                None => None,
            },
            rpm_min: Some(0),
            rpm_max: Some(3500),
            controllable: true,
            is_pump: false,
        };
        assert(fan@ == card_fan(index, *gpu, f as int));
        fans.push(fan);
        f = f + 1;
        assert(fan_views(fans@) =~= found.push(fan@));
        assert(all.take(f as int) =~= all.take(f - 1).push(fan@));
        assert(fan_views(fans@) =~= before + all.take(f as int));
    }
    assert(all.take(f as int) =~= all);
}

/// The fans of the cards that NVML can reach.
pub fn list_fans(report: &NvmlReport) -> (fans: Vec<FanInfo>)
    ensures
        fan_views(fans@) == all_fans(report.gpus@),
{
    let gpus = &report.gpus;
    let mut fans: Vec<FanInfo> = Vec::new();
    let mut i: usize = 0;
    assert(fan_views(fans@) =~= seq![]);
    assert(gpus@.take(0) =~= seq![]);
    while i < gpus.len()
        invariant
            i <= gpus@.len(),
            fan_views(fans@) == all_fans(gpus@.take(i as int)),
        decreases gpus.len() - i,
    {
        let ghost before = fan_views(fans@);
        if let Some(gpu) = &gpus[i].gpu {
            list_card(gpus[i].index, gpu, &mut fans);
        }
        assert(fan_views(fans@) =~= before + card_fans(gpus@[i as int]));
        assert(gpus@.take(i + 1).drop_last() =~= gpus@.take(i as int));
        i = i + 1;
    }
    assert(gpus@.take(i as int) =~= gpus@);
    fans
}

fn read_gpu(card: &Reached<'_>) -> (gpu: GpuReading)
    ensures
        asked_all_fans(card.number(), gpu),
{
    let name = device_name(card);
    let temperature = device_temperature(card);
    let num_fans = device_num_fans(card);
    let count: u32 = fan_total(*num_fans.value());
    let mut fans: Vec<GpuFanReading> = Vec::new();
    let mut f: u32 = 0;
    while f < count
        invariant
            f <= count,
            fans@.len() == f,
            forall|i: int| 0 <= i < f ==> is_of(#[trigger] fans@[i], card.number(), i),
        decreases count - f,
    {
        let rpm = device_fan_rpm(card, f);
        let speed = device_fan_speed(card, f);
        fans.push(GpuFanReading { rpm, speed });
        f = f + 1;
    }
    GpuReading { name, temperature, num_fans, fans }
}

/// What NVML says of card number `index`, given its answer to whether the card can be reached.
fn read_card(index: u32, contact: Answer<()>, card: Option<Reached<'_>>) -> (answer: GpuAnswer)
    requires
        contact.question() == (Question::Card { card: index }),
        contact.answer() is Some == card is Some,
        card matches Some(c) ==> c.number() == index,
    ensures
        answer.contact == contact,
        asked_card(answer, index as int),
{
    let gpu = match &card {
        Some(reached) => Some(read_gpu(reached)),
        None => None,
    };
    GpuAnswer { index, contact, gpu }
}

/// What NVML says of all cards, given its answer to how many there are.
fn read_cards(nvml: &nvml_wrapper::Nvml, count: Answer<u32>) -> (report: NvmlReport)
    requires
        count.question() == Question::CardCount,
    ensures
        report.count == count,
        asked_all_cards(report),
{
    let n: u32 = match count.value() {
        Some(n) => *n,
        None => 0,
    };
    let mut gpus: Vec<GpuAnswer> = Vec::new();
    let mut g: u32 = 0;
    while g < n
        invariant
            g <= n,
            gpus@.len() == g,
            forall|i: int| 0 <= i < g ==> asked_card(#[trigger] gpus@[i], i),
        decreases n - g,
    {
        let (contact, card) = device_by_index(nvml, g);
        gpus.push(read_card(g, contact, card));
        g = g + 1;
    }
    NvmlReport { count, gpus }
}

/// What NVML says of all cards. How many there are depends on the machine.
fn read_nvml(nvml: &nvml_wrapper::Nvml) -> (report: NvmlReport)
    ensures
        asked_all_cards(report),
{
    read_cards(nvml, device_count(nvml))
}

impl NvidiaError {
    /// The error in words; there are none for a number that cannot be read, which is for the
    /// number's reader to explain.
    pub fn message(&self) -> (out: Option<String>)
        ensures
            match *self {
                NvidiaError::NotNvidia => out matches Some(text) && text@ == "not nvidia"@,
                NvidiaError::BadNumber => out is None,
                NvidiaError::NoControlApi => out matches Some(text) && text@
                    == "NVAPI nicht verfügbar (nvapi64.dll fehlt oder keine NVIDIA-GPU). GPU-Lüftersteuerung ist unter Windows nur über NVAPI möglich."@,
                NvidiaError::NoResetApi => out matches Some(text) && text@
                    == "NVAPI nicht verfügbar — GPU-Lüfter können nicht zurückgesetzt werden."@,
                NvidiaError::Api(e) => out matches Some(text) && text@ == e.words(),
            },
    {
        match self {
            NvidiaError::NotNvidia => Some("not nvidia".to_owned()),
            NvidiaError::BadNumber => None,
            NvidiaError::NoControlApi => Some(
                "NVAPI nicht verfügbar (nvapi64.dll fehlt oder keine NVIDIA-GPU). GPU-Lüftersteuerung ist unter Windows nur über NVAPI möglich.".to_owned(),
            ),
            NvidiaError::NoResetApi => Some(
                "NVAPI nicht verfügbar — GPU-Lüfter können nicht zurückgesetzt werden.".to_owned(),
            ),
            NvidiaError::Api(e) => Some(e.message()),
        }
    }
}

impl NvidiaBackend {
    /// NVML's answer to the attempt to connect to it.
    pub closed spec fn connection(&self) -> Answer<nvml_wrapper::Nvml> {
        self.nvml
    }

    /// Whether NVML was reached.
    pub open spec fn has_nvml(&self) -> bool {
        self.connection().answer() is Some
    }

    /// The private interface.
    pub closed spec fn api(&self) -> Option<NvApi> {
        self.nvapi
    }

    /// Connects to NVML, if it is there; `nvapi` is the private interface, if it is there.
    pub fn new(nvapi: Option<NvApi>) -> (out: Self)
        ensures
            out.api() == nvapi,
            out.connection().question() == Question::Connection,
    {
        NvidiaBackend { nvml: connect(), nvapi }
    }

    /// The backend's name.
    pub fn name(&self) -> (out: &'static str)
        ensures
            out@ == "nvidia_nvml"@,
    {
        "nvidia_nvml"
    }

    /// The numbers of the card and the fan that an identifier names.
    pub fn parse_id(fan_id: &str) -> (out: Result<(u32, u32), NvidiaError>)
        ensures
            out == fan_numbers(fan_id@),
    {
        let id = chars_of(fan_id);
        let prefix = chars_of("nvidia:");
        if !begins(&id, &prefix) {
            return Err(NvidiaError::NotNvidia);
        }
        let rest = strip_prefix(&id, &prefix);
        let mut colon: usize = 0;
        while colon < rest.len() && rest[colon] != ':'
            invariant
                colon <= rest@.len(),
                forall|i: int| 0 <= i < colon ==> #[trigger] rest@[i] != ':',
            decreases rest.len() - colon,
        {
            colon = colon + 1;
        }
        proof {
            lemma_colon_at(rest@, colon as int);
            assert(rest@.subrange(0, colon as int) =~= rest@.take(colon as int));
        }
        let gpu: u32 = match parse_u32(&part_of(&rest, 0, colon)) {
            Some(gpu) => gpu,
            None => return Err(NvidiaError::BadNumber),
        };
        let fan: u32 = if colon < rest.len() {
            assert(rest@.subrange(colon + 1, rest@.len() as int) =~= rest@.skip(colon + 1));
            match parse_u32(&part_of(&rest, colon + 1, rest.len())) {
                Some(fan) => fan,
                None => return Err(NvidiaError::BadNumber),
            }
        } else {
            0
        };
        Ok((gpu, fan))
    }

    /// All fans of all cards that NVML can reach.
    pub fn scan(&self) -> (fans: Vec<FanInfo>)
        ensures
            self.has_nvml() ==> exists|report: NvmlReport| #[trigger]
                asked_all_cards(report) && fan_views(fans@) == all_fans(report.gpus@),
            !self.has_nvml() ==> fans@.len() == 0,
    {
        match self.nvml.value() {
            Some(nvml) => {
                let report = read_nvml(nvml);
                list_fans(&report)
            },
            None => Vec::new(),
        }
    }

    /// Sets all fans of the card that an identifier names to `pct` percent, at least 30 and at
    /// most 100.
    pub fn set_speed_pct(&self, r: &mut NvSession, fan_id: &str, pct: u8) -> (out: Result<
        Result<(), NvidiaError>,
        NvRequest,
    >)
        ensures
            ran(
                commanding(
                    self.api(),
                    fan_id@,
                    Some(gpu_level(pct)),
                    NvidiaError::NoControlApi,
                ),
                old(r).remaining(),
                final(r).remaining(),
                viewed(out),
            ),
    {
        let level: u8 = if pct < 30 {
            30
        } else if pct > 100 {
            100
        } else {
            pct
        };
        self.command(r, fan_id, Some(level), NvidiaError::NoControlApi)
    }

    /// Hands all fans of the card that an identifier names back to the driver.
    pub fn reset_to_auto(&self, r: &mut NvSession, fan_id: &str) -> (out: Result<
        Result<(), NvidiaError>,
        NvRequest,
    >)
        ensures
            ran(
                commanding(self.api(), fan_id@, None, NvidiaError::NoResetApi),
                old(r).remaining(),
                final(r).remaining(),
                viewed(out),
            ),
    {
        self.command(r, fan_id, None, NvidiaError::NoResetApi)
    }

    fn command(
        &self,
        r: &mut NvSession,
        fan_id: &str,
        level: Option<u8>,
        missing: NvidiaError,
    ) -> (out: Result<Result<(), NvidiaError>, NvRequest>)
        ensures
            ran(
                commanding(self.api(), fan_id@, level, missing),
                old(r).remaining(),
                final(r).remaining(),
                viewed(out),
            ),
    {
        let (gpu, _fan): (u32, u32) = match Self::parse_id(fan_id) {
            Ok(numbers) => numbers,
            Err(e) => return Ok(Err(e)),
        };
        match &self.nvapi {
            None => Ok(Err(missing)),
            Some(api) => match api.set_fans(r, gpu as usize, level)? {
                Ok(()) => Ok(Ok(())),
                Err(e) => Ok(Err(NvidiaError::Api(e))),
            },
        }
    }
}

} // verus!
