//! What NVIDIA graphics cards are told to do, and what is listed of them.
use vstd::prelude::*;

use crate::fan::{FanMode, FanType, FanView, Temperature};
use crate::nvapi::{
    opening, ControlView, NvApi, NvError, NvFanCoolerControl, NvFanCoolerControlItem, NvReply,
    NvTalk, RequestView,
};
use crate::nvidia::{
    all_fans, asked_all_cards, asked_card, card_fans, commanding, is_of, lemma_fan_id, GpuAnswer,
    GpuReading, NvidiaError, NvmlReport,
};
use crate::nvml::Question;
use crate::session::{replay, requests, Outcome};
use crate::text::{begins_with, digits};

verus! {

/// The identifier of a card's fan.
pub open spec fn named(gpu: u32, fan: u32) -> Seq<char> {
    "nvidia:"@ + digits(gpu as nat) + ":"@ + digits(fan as nat)
}

/// Whether a control block is empty and marked with its size and format.
pub open spec fn is_blank(control: ControlView) -> bool {
    &&& control.version == 1452 + 65536
    &&& control.count == 0
    &&& control.items.len() == 32
    &&& forall|i: int|
        0 <= i < 32 ==> #[trigger] control.items[i] == (NvFanCoolerControlItem {
            cooler_id: 0,
            level: 0,
            control_mode: 0,
        })
}

/// Whether a cooler is the one that was read, at a speed in manual mode or back under automatic
/// control.
pub open spec fn is_told(
    read: NvFanCoolerControlItem,
    written: NvFanCoolerControlItem,
    level: Option<u8>,
) -> bool {
    &&& written.cooler_id == read.cooler_id
    &&& match level {
        Some(pct) => written.control_mode == 1 && written.level == (if pct > 100 {
            100
        } else {
            pct
        }),
        None => written.control_mode == 0 && written.level == 0,
    }
}

/// Whether a written block is the one that was read, with every cooler that is there told to.
pub open spec fn is_changed(read: ControlView, written: ControlView, level: Option<u8>) -> bool {
    &&& written.version == read.version
    &&& written.count == read.count
    &&& written.items.len() == read.items.len()
    &&& forall|i: int|
        0 <= i < read.items.len() ==> if i < read.count {
            is_told(read.items[i], #[trigger] written.items[i], level)
        } else {
            written.items[i] == read.items[i]
        }
}

/// Setting a card, or handing it back, reads its control block and writes it back changed: that
/// of the card in the identifier, all of its coolers, and no other card.
pub proof fn lemma_card_is_told(
    api: NvApi,
    gpu: u32,
    fan: u32,
    level: Option<u8>,
    missing: NvidiaError,
    control: NvFanCoolerControl,
    status: i32,
)
    requires
        gpu < api.gpu_count(),
        control.count > 0,
        control.items@.len() == 32,
    ensures
        ({
            let talk = commanding(Some(api), named(gpu, fan), level, missing);
            let replies = seq![
                NvReply::Control { status: 0, control },
                NvReply::Status(status),
            ];
            let made = requests(talk, replies);
            &&& made.len() == 2
            &&& made[0] matches RequestView::GetControl { gpu: from, control: blank } && from == gpu
                && is_blank(blank)
            &&& made[1] matches RequestView::SetControl { gpu: to, control: written } && to == gpu
                && is_changed(control@, written, level)
            &&& replay(talk, replies) == (Outcome::<RequestView, NvReply, _>::Finished {
                value: if status == 0 {
                    Ok(())
                } else {
                    Err(NvidiaError::Api(NvError::SetFailed { status }))
                },
                rest: seq![],
            })
        }),
{
    broadcast use {crate::session::group_replay, crate::session::group_requests};

    lemma_fan_id(gpu, fan);
    let replies = seq![NvReply::Control { status: 0, control }, NvReply::Status(status)];
    assert(replies.drop_first() =~= seq![NvReply::Status(status)]);
    assert(replies.drop_first().drop_first() =~= seq![]);
}

/// A card that cannot be read, has no coolers or is not there is not written, and what is
/// returned says which it was.
pub proof fn lemma_card_is_left_alone(
    api: NvApi,
    gpu: u32,
    fan: u32,
    level: Option<u8>,
    missing: NvidiaError,
    control: NvFanCoolerControl,
    status: i32,
)
    requires
        gpu >= api.gpu_count() || status != 0 || control.count == 0,
    ensures
        ({
            let talk = commanding(Some(api), named(gpu, fan), level, missing);
            let replies = seq![NvReply::Control { status, control }];
            &&& requests(talk, replies).len() <= 1
            &&& replay(talk, replies) matches Outcome::Finished { value, .. } && value == Err::<
                (),
                NvidiaError,
            >(
                NvidiaError::Api(
                    if gpu >= api.gpu_count() {
                        NvError::NoSuchGpu { gpu: gpu as usize }
                    } else if status != 0 {
                        NvError::GetFailed { status }
                    } else {
                        NvError::NoCoolers
                    },
                ),
            )
        }),
{
    broadcast use {crate::session::group_replay, crate::session::group_requests};

    lemma_fan_id(gpu, fan);
}

/// Without the private interface nothing is asked of the driver, and the error is the one that
/// the caller has for that.
pub proof fn lemma_no_interface(
    gpu: u32,
    fan: u32,
    level: Option<u8>,
    missing: NvidiaError,
    replies: Seq<NvReply>,
)
    ensures
        ({
            let talk = commanding(None, named(gpu, fan), level, missing);
            &&& requests(talk, replies).len() == 0
            &&& replay(talk, replies) matches Outcome::Finished { value, .. } && value == Err::<
                (),
                NvidiaError,
            >(missing)
        }),
{
    lemma_fan_id(gpu, fan);
}

/// How many fans are listed of a card: as many as it has, but at least one.
pub open spec fn fans_listed(gpu: GpuReading) -> int {
    match gpu.num_fans.answer() {
        Some(n) => if n == 0 {
            1
        } else {
            n as int
        },
        None => 1,
    }
}

/// Whether a fan is listed as number `fan` of a card.
pub open spec fn is_card_fan(card: u32, gpu: GpuReading, fan: int, f: FanView) -> bool {
    let name = if gpu.name.answer() is Some {
        gpu.name.answer()->0@
    } else {
        "NVIDIA GPU"@
    };
    &&& f.id == named(card, fan as u32)
    &&& f.label == (if fans_listed(gpu) == 1 {
        name + " Fan"@
    } else {
        name + " Fan "@ + digits((fan + 1) as nat)
    })
    &&& f.fan_type == FanType::Nvidia
    &&& f.mode == FanMode::Auto
    &&& fan < gpu.fans@.len() ==> {
        &&& f.rpm == gpu.fans@[fan].rpm.answer()
        &&& match gpu.fans@[fan].speed.answer() {
            Some(pct) => f.speed_pct is Some && f.speed_pct->0 == (if pct > 100 {
                100
            } else {
                pct
            }),
            None => f.speed_pct is None,
        }
    }
    &&& fan >= gpu.fans@.len() ==> f.rpm is None && f.speed_pct is None
    &&& match gpu.temperature.answer() {
        Some(degrees) => f.temperature == Some(Temperature::Celsius(degrees)),
        None => f.temperature is None,
    }
    &&& f.rpm_min == Some(0u32)
    &&& f.rpm_max == Some(3500u32)
    &&& f.controllable
    &&& !f.is_pump
}

/// Where the fans of card number `i` begin in the list.
pub open spec fn fans_before(gpus: Seq<GpuAnswer>, i: int) -> int
    decreases i,
{
    if i <= 0 {
        0
    } else {
        fans_before(gpus, i - 1) + match gpus[i - 1].gpu {
            Some(gpu) => fans_listed(gpu),
            None => 0,
        }
    }
}

/// The list holds all fans of all cards that can be reached, card by card in their order, and
/// nothing else.
pub proof fn lemma_all_fans_are_listed(gpus: Seq<GpuAnswer>)
    ensures
        all_fans(gpus).len() == fans_before(gpus, gpus.len() as int),
        forall|i: int, fan: int|
            0 <= i < gpus.len() && (#[trigger] gpus[i]).gpu is Some && 0 <= fan < fans_listed(
                gpus[i].gpu->0,
            ) ==> is_card_fan(
                gpus[i].index,
                gpus[i].gpu->0,
                fan,
                #[trigger] all_fans(gpus)[fans_before(gpus, i) + fan],
            ),
    decreases gpus.len(),
{
    if gpus.len() > 0 {
        let fewer = gpus.drop_last();
        let last = gpus.len() - 1;
        lemma_all_fans_are_listed(fewer);
        lemma_fans_before(gpus, fewer, last);
        assert(fans_before(gpus, gpus.len() as int) == fans_before(gpus, last) + (
        match gpus[last].gpu {
            Some(gpu) => fans_listed(gpu),
            None => 0,
        }));
        assert(card_fans(gpus[last]).len() == match gpus[last].gpu {
            Some(gpu) => fans_listed(gpu),
            None => 0,
        });
        assert forall|i: int, fan: int|
            0 <= i < gpus.len() && (#[trigger] gpus[i]).gpu is Some && 0 <= fan < fans_listed(
                gpus[i].gpu->0,
            ) implies is_card_fan(
            gpus[i].index,
            gpus[i].gpu->0,
            fan,
            #[trigger] all_fans(gpus)[fans_before(gpus, i) + fan],
        ) by {
            let at = fans_before(gpus, i) + fan;
            if i < last {
                lemma_fans_before(gpus, fewer, i);
                lemma_fans_within(fewer, i);
                assert(fewer[i] == gpus[i]);
                assert(all_fans(gpus)[at] == all_fans(fewer)[at]);
            } else {
                assert(all_fans(gpus)[at] == card_fans(gpus[last])[fan]);
            }
        }
    }
}

proof fn lemma_fans_before(gpus: Seq<GpuAnswer>, fewer: Seq<GpuAnswer>, i: int)
    requires
        0 <= i <= fewer.len() <= gpus.len(),
        fewer == gpus.take(fewer.len() as int),
    ensures
        fans_before(gpus, i) == fans_before(fewer, i),
        fans_before(gpus, i) >= 0,
    decreases i,
{
    if i > 0 {
        lemma_fans_before(gpus, fewer, i - 1);
        assert(fewer[i - 1] == gpus[i - 1]);
    }
}

proof fn lemma_fans_within(gpus: Seq<GpuAnswer>, i: int)
    requires
        0 <= i < gpus.len(),
    ensures
        0 <= fans_before(gpus, i),
        fans_before(gpus, i) + (match gpus[i].gpu {
            Some(gpu) => fans_listed(gpu),
            None => 0,
        }) <= fans_before(gpus, gpus.len() as int),
    decreases gpus.len() - i,
{
    assert(gpus.take(gpus.len() as int) =~= gpus);
    lemma_fans_before(gpus, gpus, i);
    if i + 1 < gpus.len() {
        lemma_fans_within(gpus, i + 1);
    }
}

/// The interface opens with the cards that the driver lists, at most 64, where every step
/// succeeds and there is one.
pub proof fn lemma_interface_opens(count: u32)
    requires
        count > 0,
    ensures
        ({
            let there = NvReply::Present(true);
            let replies = seq![
                there,
                there,
                there,
                NvReply::Status(0),
                there,
                there,
                there,
                NvReply::Gpus { status: 0, count },
            ];
            replay(opening(), replies) matches Outcome::Finished { value: Some(gpus), .. } && gpus
                == (if count > 64 {
                64
            } else {
                count as int
            })
        }),
{
    broadcast use crate::session::group_replay;

    let there = NvReply::Present(true);
    let last = NvReply::Gpus { status: 0, count };
    let replies = seq![there, there, there, NvReply::Status(0), there, there, there, last];
    let r1 = replies.drop_first();
    assert(r1 =~= seq![there, there, NvReply::Status(0), there, there, there, last]);
    let r2 = r1.drop_first();
    assert(r2 =~= seq![there, NvReply::Status(0), there, there, there, last]);
    let r3 = r2.drop_first();
    assert(r3 =~= seq![NvReply::Status(0), there, there, there, last]);
    let r4 = r3.drop_first();
    assert(r4 =~= seq![there, there, there, last]);
    let r5 = r4.drop_first();
    assert(r5 =~= seq![there, there, last]);
    let r6 = r5.drop_first();
    assert(r6 =~= seq![there, last]);
    assert(r6.drop_first() =~= seq![last]);
}

/// An identifier that does not begin with the seven characters of NVIDIA's fans is refused as
/// another backend's.
pub proof fn lemma_other_identifiers_are_refused(
    nvapi: Option<NvApi>,
    id: Seq<char>,
    level: Option<u8>,
    missing: NvidiaError,
)
    requires
        id.len() < 7 || id.take(7) != seq!['n', 'v', 'i', 'd', 'i', 'a', ':'],
    ensures
        commanding(nvapi, id, level, missing) == NvTalk::End(
            Err::<(), NvidiaError>(NvidiaError::NotNvidia),
        ),
{
    reveal_strlit("nvidia:");
    assert("nvidia:"@ =~= seq!['n', 'v', 'i', 'd', 'i', 'a', ':']);
    if begins_with(id, "nvidia:"@) {
        assert(id.subrange(0, 7) =~= id.take(7));
    }
}

/// Whether a card was asked for by its number, and, if it can be reached, for its name, its
/// temperature, its number of fans, and the two speeds of each of them.
pub open spec fn is_fully_asked(answer: GpuAnswer, card: u32) -> bool {
    &&& answer.index == card
    &&& answer.contact.question() == Question::Card { card }
    &&& answer.contact.answer() is Some <==> answer.gpu is Some
    &&& answer.gpu matches Some(gpu) ==> {
        &&& gpu.name.question() == Question::Name { card }
        &&& gpu.temperature.question() == Question::Temperature { card }
        &&& gpu.num_fans.question() == Question::FanCount { card }
        &&& gpu.fans@.len() == fans_listed(gpu)
        &&& forall|fan: u32|
            fan < gpu.fans@.len() ==> {
                let reading = #[trigger] gpu.fans@[fan as int];
                &&& reading.rpm.question() == Question::Rpm { card, fan }
                &&& reading.speed.question() == Question::Percent { card, fan }
            }
    }
}

/// A scan asks for as many cards as there are, from the first on, and of each for everything that
/// is listed.
pub proof fn lemma_every_card_is_asked(report: NvmlReport)
    requires
        asked_all_cards(report),
    ensures
        report.count.question() == Question::CardCount,
        report.count.answer() matches Some(count) ==> report.gpus@.len() == count,
        report.count.answer() is None ==> report.gpus@.len() == 0,
        forall|card: u32|
            card < report.gpus@.len() ==> is_fully_asked(
                #[trigger] report.gpus@[card as int],
                card,
            ),
{
    assert forall|card: u32| card < report.gpus@.len() implies is_fully_asked(
        #[trigger] report.gpus@[card as int],
        card,
    ) by {
        let answer = report.gpus@[card as int];
        assert(asked_card(answer, card as int));
        if let Some(gpu) = answer.gpu {
            assert forall|fan: u32| fan < gpu.fans@.len() implies {
                let reading = #[trigger] gpu.fans@[fan as int];
                &&& reading.rpm.question() == Question::Rpm { card, fan }
                &&& reading.speed.question() == Question::Percent { card, fan }
            } by {
                assert(is_of(gpu.fans@[fan as int], card, fan as int));
            }
        }
    }
}

} // verus!
