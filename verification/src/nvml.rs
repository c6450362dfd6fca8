//! Questions to NVML, the library that NVIDIA graphics cards are read through.
//!
//! What NVML answers depends on the machine, so nothing is known of an answer but which question
//! it is an answer to. An [`Answer`] carries its question, and only asking NVML gives one that
//! does: no other code can make it up.
use vstd::prelude::*;

verus! {

/// A connection to NVML.
#[verifier::external_type_specification]
#[verifier::external_body]
pub struct ExNvml(nvml_wrapper::Nvml);

/// A card that NVML knows.
#[verifier::external_type_specification]
#[verifier::external_body]
pub struct ExDevice<'nvml>(nvml_wrapper::Device<'nvml>);

/// What NVML is asked. Cards and fans are meant by their numbers.
#[derive(Clone, Copy, PartialEq, Eq, Structural, Debug)]
pub enum Question {
    /// Nothing: the answer is only supposed.
    Supposed,
    /// To connect.
    Connection,
    /// How many cards there are.
    CardCount,
    /// To reach a card.
    Card { card: u32 },
    /// A card's name.
    Name { card: u32 },
    /// The temperature of a card's graphics processor, in degrees Celsius.
    Temperature { card: u32 },
    /// How many fans a card has.
    FanCount { card: u32 },
    /// The speed of a fan in revolutions per minute.
    Rpm { card: u32, fan: u32 },
    /// The speed of a fan in percent.
    Percent { card: u32, fan: u32 },
}

/// An answer of NVML, and the question that it was asked; `None` where it has no answer.
pub struct Answer<T> {
    question: Question,
    value: Option<T>,
}

/// A card that was reached, and the number by which NVML was asked for it.
pub struct Reached<'a> {
    index: u32,
    device: nvml_wrapper::Device<'a>,
}

impl<T> Answer<T> {
    /// What was asked.
    pub closed spec fn question(&self) -> Question {
        self.question
    }

    /// What was answered.
    pub closed spec fn answer(&self) -> Option<T> {
        self.value
    }

    /// An answer that nobody gave, to see what would follow from it.
    pub fn supposed(value: Option<T>) -> (out: Self)
        ensures
            out.question() == Question::Supposed,
            out.answer() == value,
    {
        Answer { question: Question::Supposed, value }
    }

    /// What was asked.
    pub fn asked(&self) -> (out: Question)
        ensures
            out == self.question(),
    {
        self.question
    }

    /// What was answered.
    pub fn value(&self) -> (out: &Option<T>)
        ensures
            *out == self.answer(),
    {
        &self.value
    }
}

impl<'a> Reached<'a> {
    /// The number by which the card was asked for.
    pub closed spec fn number(&self) -> u32 {
        self.index
    }
}

/// Calls `Nvml::init`. Whether NVML can be reached depends on the machine, so of the result no
/// more is claimed than that it answers this question.
#[verifier::external_body]
pub(crate) fn connect() -> (out: Answer<nvml_wrapper::Nvml>)
    ensures
        out.question() == Question::Connection,
{
    Answer { question: Question::Connection, value: nvml_wrapper::Nvml::init().ok() }
}

/// Calls `Nvml::device_count`. The number of cards depends on the machine, so of the result no
/// more is claimed than that it answers this question.
#[verifier::external_body]
pub(crate) fn device_count(nvml: &nvml_wrapper::Nvml) -> (out: Answer<u32>)
    ensures
        out.question() == Question::CardCount,
{
    Answer { question: Question::CardCount, value: nvml.device_count().ok() }
}

/// Calls `Nvml::device_by_index`. Whether the card can be reached depends on the machine, so of
/// the result no more is claimed than that the first part answers whether it was, and that the
/// second part is that card.
#[verifier::external_body]
pub(crate) fn device_by_index<'a>(nvml: &'a nvml_wrapper::Nvml, index: u32) -> (out: (
    Answer<()>,
    Option<Reached<'a>>,
))
    ensures
        out.0.question() == (Question::Card { card: index }),
        out.0.answer() is Some == out.1 is Some,
        out.1 matches Some(card) ==> card.number() == index,
{
    let question = Question::Card { card: index };
    match nvml.device_by_index(index) {
        Ok(device) => (Answer { question, value: Some(()) }, Some(Reached { index, device })),
        Err(_) => (Answer { question, value: None }, None),
    }
}

/// Calls `Device::name`. The name depends on the machine, so of the result no more is claimed
/// than that it answers this question about this card.
#[verifier::external_body]
pub(crate) fn device_name(card: &Reached<'_>) -> (out: Answer<String>)
    ensures
        out.question() == (Question::Name { card: card.number() }),
{
    Answer { question: Question::Name { card: card.index }, value: card.device.name().ok() }
}

/// Calls `Device::temperature` for the sensor of the graphics processor. The temperature depends
/// on the machine, so of the result no more is claimed than that it answers this question about
/// this card.
#[verifier::external_body]
pub(crate) fn device_temperature(card: &Reached<'_>) -> (out: Answer<u32>)
    ensures
        out.question() == (Question::Temperature { card: card.number() }),
{
    let sensor = nvml_wrapper::enum_wrappers::device::TemperatureSensor::Gpu;
    let question = Question::Temperature { card: card.index };
    Answer { question, value: card.device.temperature(sensor).ok() }
}

/// Calls `Device::num_fans`. The number of fans depends on the machine, so of the result no more
/// is claimed than that it answers this question about this card.
#[verifier::external_body]
pub(crate) fn device_num_fans(card: &Reached<'_>) -> (out: Answer<u32>)
    ensures
        out.question() == (Question::FanCount { card: card.number() }),
{
    Answer { question: Question::FanCount { card: card.index }, value: card.device.num_fans().ok() }
}

/// Calls `Device::fan_speed_rpm`. The speed depends on the machine, so of the result no more is
/// claimed than that it answers this question about this fan of this card.
#[verifier::external_body]
pub(crate) fn device_fan_rpm(card: &Reached<'_>, fan: u32) -> (out: Answer<u32>)
    ensures
        out.question() == (Question::Rpm { card: card.number(), fan }),
{
    let question = Question::Rpm { card: card.index, fan };
    Answer { question, value: card.device.fan_speed_rpm(fan).ok() }
}

/// Calls `Device::fan_speed`. The speed depends on the machine, so of the result no more is
/// claimed than that it answers this question about this fan of this card.
#[verifier::external_body]
pub(crate) fn device_fan_speed(card: &Reached<'_>, fan: u32) -> (out: Answer<u32>)
    ensures
        out.question() == (Question::Percent { card: card.number(), fan }),
{
    let question = Question::Percent { card: card.index, fan };
    Answer { question, value: card.device.fan_speed(fan).ok() }
}

} // verus!
