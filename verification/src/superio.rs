//! Finding the SuperIO chip of the motherboard.
//!
//! A chip answers at one of two configuration ports, once its family's entry sequence has been
//! written there. Its two identification bytes tell the model, and its configuration registers
//! tell the base port of the hardware monitor.
use vstd::prelude::*;

use crate::ports::{reading_or_zero, writing, PortOp, PortTalk, Ports};
use crate::session::{ran, replay, requests, Dialogue, Outcome};

verus! {

broadcast use crate::session::group_replay;

/// The chip families, which differ in how their registers are accessed.
#[derive(Clone, Copy, PartialEq, Eq, Structural, Debug)]
pub enum ChipFamily {
    Nuvoton,
    Nct6687,
    Ite,
    Fintek,
}

/// A chip that was found.
#[derive(Clone, Copy, Debug)]
pub struct SuperIoChip {
    pub family: ChipFamily,
    /// The identification that the chip reported.
    pub chip_id: u16,
    pub chip_name: &'static str,
    /// The configuration port at which the chip answers.
    pub sio_port: u16,
    /// The base port of the hardware monitor.
    pub iobase: u16,
    pub fan_count: usize,
    /// Whether a Nuvoton chip has the register map of the NCT6779D and newer chips.
    pub modern: bool,
}

/// The name and the number of fans of a chip model.
#[derive(Clone, Copy, Debug)]
pub struct Model {
    pub name: &'static str,
    pub fans: usize,
}

/// The configuration ports, in the order in which they are tried.
pub const SIO_PORT_1: u16 = 0x2E;

pub const SIO_PORT_2: u16 = 0x4E;

/// A chip identification without the hardware revision in its lowest four bits.
pub open spec fn family_id(id: u16) -> u16 {
    (id - id % 16) as u16
}

/// Whether an identification is that of an NCT6687D.
pub open spec fn is_nct6687(id: u16) -> bool {
    family_id(id) == 0xD590
}

/// Whether a Nuvoton or Winbond chip has the register map of the NCT6779D and newer chips.
pub open spec fn is_modern(id: u16) -> bool {
    family_id(id) >= 0xC560
}

/// The Nuvoton and Winbond models by identification, whose revision does not matter.
pub open spec fn nuvoton_model(id: u16) -> Option<Model> {
    let family = family_id(id);
    if family == 0xB470 {
        Some(Model { name: "NCT6775F", fans: 5 })
    } else if family == 0xC330 {
        Some(Model { name: "NCT6776F", fans: 5 })
    } else if family == 0xC560 {
        Some(Model { name: "NCT6779D", fans: 5 })
    } else if family == 0xC800 {
        Some(Model { name: "NCT6791D", fans: 6 })
    } else if family == 0xC910 {
        Some(Model { name: "NCT6792D", fans: 6 })
    } else if family == 0xD120 {
        Some(Model { name: "NCT6793D", fans: 6 })
    } else if family == 0xD350 {
        Some(Model { name: "NCT6795D", fans: 6 })
    } else if family == 0xD420 {
        Some(Model { name: "NCT6796D/6798D", fans: 7 })
    } else if family == 0xD450 {
        Some(Model { name: "NCT6797D", fans: 7 })
    } else if family == 0xA020 {
        Some(Model { name: "W83627DHG", fans: 3 })
    } else if family == 0x8800 {
        Some(Model { name: "W83627EHF", fans: 5 })
    } else if family == 0xA510 {
        Some(Model { name: "W83667HG", fans: 5 })
    } else if family == 0xB350 {
        Some(Model { name: "W83677HG", fans: 5 })
    } else {
        None
    }
}

/// The ITE models by identification.
pub open spec fn ite_model(id: u16) -> Option<Model> {
    if id == 0x8620 {
        Some(Model { name: "IT8620E", fans: 5 })
    } else if id == 0x8628 {
        Some(Model { name: "IT8628E", fans: 5 })
    } else if id == 0x8665 {
        Some(Model { name: "IT8665E", fans: 5 })
    } else if id == 0x8686 {
        Some(Model { name: "IT8686E", fans: 5 })
    } else if id == 0x8688 {
        Some(Model { name: "IT8688E", fans: 5 })
    } else if id == 0x8783 {
        Some(Model { name: "IT8783E", fans: 5 })
    } else if id == 0x8790 {
        Some(Model { name: "IT8790E", fans: 5 })
    } else if id == 0x8792 {
        Some(Model { name: "IT8792E", fans: 5 })
    } else if id == 0x8795 {
        Some(Model { name: "IT8795E", fans: 5 })
    } else {
        None
    }
}

/// The Fintek models by identification.
pub open spec fn fintek_model(id: u16) -> Option<Model> {
    if id == 0x0504 {
        Some(Model { name: "F71808E", fans: 3 })
    } else if id == 0x0507 {
        Some(Model { name: "F71858", fans: 3 })
    } else if id == 0x0601 {
        Some(Model { name: "F71869A", fans: 3 })
    } else if id == 0x0814 {
        Some(Model { name: "F71869", fans: 3 })
    } else if id == 0x0541 {
        Some(Model { name: "F71882FG", fans: 3 })
    } else if id == 0x0723 {
        Some(Model { name: "F71889FG", fans: 3 })
    } else {
        None
    }
}

/// Reads a 16-bit value whose bytes lie in two configuration registers; a byte that cannot be
/// read counts as zero.
pub open spec fn reading_word(port: u16, hi_reg: u8, lo_reg: u8) -> PortTalk<u16> {
    writing(port, hi_reg).followed_by(
        reading_or_zero(port.wrapping_add(1)).bind(
            |hi: u8|
                writing(port, lo_reg).followed_by(
                    reading_or_zero(port.wrapping_add(1)).bind(
                        |lo: u8| Dialogue::End((hi * 256 + lo) as u16),
                    ),
                ),
        ),
    )
}

/// Reads the chip identification.
pub open spec fn reading_id(port: u16) -> PortTalk<u16> {
    reading_word(port, 0x20, 0x21)
}

/// Selects and enables the logical device `ldn` and reads its base port.
pub open spec fn reading_iobase(port: u16, ldn: u8) -> PortTalk<u16> {
    writing(port, 0x07).followed_by(
        writing(port.wrapping_add(1), ldn).followed_by(
            writing(port, 0x30).followed_by(
                writing(port.wrapping_add(1), 0x01).followed_by(reading_word(port, 0x60, 0x61)),
            ),
        ),
    )
}

/// The entry sequence of Nuvoton and Winbond chips.
pub open spec fn entering_nuvoton(port: u16) -> PortTalk<()> {
    writing(port, 0x87).followed_by(writing(port, 0x87))
}

/// The entry sequence of ITE chips, which depends on the port.
pub open spec fn entering_ite(port: u16) -> PortTalk<()> {
    writing(port, 0x87).followed_by(
        writing(port, 0x01).followed_by(
            writing(port, 0x55).followed_by(
                writing(
                    port,
                    if port == SIO_PORT_1 {
                        0x55
                    } else {
                        0xAA
                    },
                ),
            ),
        ),
    )
}

/// The entry sequence of Fintek chips.
pub open spec fn entering_fintek(port: u16) -> PortTalk<()> {
    writing(port, 0x87).followed_by(writing(port, 0x87).followed_by(writing(port, 0x87)))
}

/// The exit sequence of Nuvoton, Winbond and Fintek chips.
pub open spec fn leaving(port: u16) -> PortTalk<()> {
    writing(port, 0xAA)
}

/// The exit sequence of ITE chips.
pub open spec fn leaving_ite(port: u16) -> PortTalk<()> {
    writing(port, 0x02).followed_by(writing(port.wrapping_add(1), 0x02))
}

/// Enters configuration mode, holds `inner`, and leaves configuration mode again.
pub open spec fn inside(
    enter: PortTalk<()>,
    inner: PortTalk<u16>,
    leave: PortTalk<()>,
) -> PortTalk<u16> {
    enter.followed_by(inner.bind(|word: u16| leave.followed_by(Dialogue::End(word))))
}

/// The chip, unless the base port is too low to be one.
pub open spec fn with_iobase(chip: SuperIoChip, iobase: u16) -> Option<SuperIoChip> {
    if iobase < 0x100 {
        None
    } else {
        Some(SuperIoChip { iobase, ..chip })
    }
}

/// A probe for one family: reads the identification in configuration mode. Where `recognise`
/// makes a chip of it, reads the base port of the chip's logical device `ldn`, again in
/// configuration mode.
pub open spec fn probing(
    port: u16,
    enter: PortTalk<()>,
    leave: PortTalk<()>,
    ldn: u8,
    recognise: spec_fn(u16) -> Option<SuperIoChip>,
) -> PortTalk<Option<SuperIoChip>> {
    inside(enter, reading_id(port), leave).bind(
        |id: u16|
            match recognise(id) {
                None => Dialogue::End(None),
                Some(chip) => inside(enter, reading_iobase(port, ldn), leave).bind(
                    |iobase: u16| Dialogue::End(with_iobase(chip, iobase)),
                ),
            },
    )
}

/// What a Nuvoton or Winbond identification stands for; the base port is not known yet.
pub open spec fn nuvoton_chip(port: u16, id: u16) -> Option<SuperIoChip> {
    if is_nct6687(id) {
        Some(
            SuperIoChip {
                family: ChipFamily::Nct6687,
                chip_id: id,
                chip_name: "NCT6687D",
                sio_port: port,
                iobase: 0,
                fan_count: 8,
                modern: true,
            },
        )
    } else {
        match nuvoton_model(id) {
            Some(model) => Some(
                SuperIoChip {
                    family: ChipFamily::Nuvoton,
                    chip_id: id,
                    chip_name: model.name,
                    sio_port: port,
                    iobase: 0,
                    fan_count: model.fans,
                    modern: is_modern(id),
                },
            ),
            None => None,
        }
    }
}

/// What an ITE identification stands for; the base port is not known yet.
pub open spec fn ite_chip(port: u16, id: u16) -> Option<SuperIoChip> {
    match ite_model(id) {
        Some(model) => Some(
            SuperIoChip {
                family: ChipFamily::Ite,
                chip_id: id,
                chip_name: model.name,
                sio_port: port,
                iobase: 0,
                fan_count: model.fans,
                modern: false,
            },
        ),
        None => None,
    }
}

/// What a Fintek identification stands for; the base port is not known yet.
pub open spec fn fintek_chip(port: u16, id: u16) -> Option<SuperIoChip> {
    match fintek_model(id) {
        Some(model) => Some(
            SuperIoChip {
                family: ChipFamily::Fintek,
                chip_id: id,
                chip_name: model.name,
                sio_port: port,
                iobase: 0,
                fan_count: model.fans,
                modern: false,
            },
        ),
        None => None,
    }
}

/// Probes for a Nuvoton or Winbond chip.
pub open spec fn probing_nuvoton(port: u16) -> PortTalk<Option<SuperIoChip>> {
    probing(
        port,
        entering_nuvoton(port),
        leaving(port),
        0x0B,
        |id: u16| nuvoton_chip(port, id),
    )
}

/// Probes for an ITE chip.
pub open spec fn probing_ite(port: u16) -> PortTalk<Option<SuperIoChip>> {
    probing(port, entering_ite(port), leaving_ite(port), 0x04, |id: u16| ite_chip(port, id))
}

/// Probes for a Fintek chip.
pub open spec fn probing_fintek(port: u16) -> PortTalk<Option<SuperIoChip>> {
    probing(port, entering_fintek(port), leaving(port), 0x04, |id: u16| fintek_chip(port, id))
}

/// Tries `first`, and `second` if it finds nothing.
pub open spec fn first_of(
    first: PortTalk<Option<SuperIoChip>>,
    second: PortTalk<Option<SuperIoChip>>,
) -> PortTalk<Option<SuperIoChip>> {
    first.bind(
        |chip: Option<SuperIoChip>|
            match chip {
                Some(c) => Dialogue::End(Some(c)),
                None => second,
            },
    )
}

/// Reads the identification at a port without looking for a particular family.
pub open spec fn reading_raw_id(port: u16) -> PortTalk<u16> {
    inside(entering_nuvoton(port), reading_id(port), leaving(port))
}

/// Looks for a chip of any family at a port.
pub open spec fn detecting_at(port: u16) -> PortTalk<Option<SuperIoChip>> {
    reading_raw_id(port).followed_by(
        first_of(probing_nuvoton(port), first_of(probing_ite(port), probing_fintek(port))),
    )
}

/// Looks for a chip at both ports.
pub open spec fn detecting() -> PortTalk<Option<SuperIoChip>> {
    first_of(detecting_at(SIO_PORT_1), detecting_at(SIO_PORT_2))
}

/// Whether a chip is what its identification stands for, at one of the two ports, with a base
/// port that can be one.
pub open spec fn is_known(chip: SuperIoChip) -> bool {
    let blank = Some(SuperIoChip { iobase: 0, ..chip });
    &&& chip.iobase >= 0x100
    &&& chip.sio_port == SIO_PORT_1 || chip.sio_port == SIO_PORT_2
    &&& {
        ||| nuvoton_chip(chip.sio_port, chip.chip_id) == blank
        ||| ite_chip(chip.sio_port, chip.chip_id) == blank
        ||| fintek_chip(chip.sio_port, chip.chip_id) == blank
    }
}

/// A chip that is found is a known one, whatever the ports answer.
pub proof fn lemma_found_chip_is_known(replies: Seq<Option<u8>>)
    ensures
        replay(detecting(), replies) matches Outcome::Finished { value: Some(chip), .. }
            ==> is_known(chip),
{
    lemma_found_at_port(SIO_PORT_1, replies);
    if let Outcome::Finished { value, rest } = replay(detecting_at(SIO_PORT_1), replies) {
        lemma_found_at_port(SIO_PORT_2, rest);
    }
}

proof fn lemma_found_at_port(port: u16, replies: Seq<Option<u8>>)
    requires
        port == SIO_PORT_1 || port == SIO_PORT_2,
    ensures
        replay(detecting_at(port), replies) matches Outcome::Finished { value: Some(chip), .. }
            ==> is_known(chip),
{
    if let Outcome::Finished { rest, .. } = replay(reading_raw_id(port), replies) {
        lemma_probed(
            port,
            entering_nuvoton(port),
            leaving(port),
            0x0B,
            |id: u16| nuvoton_chip(port, id),
            rest,
        );
        if let Outcome::Finished { rest, .. } = replay(probing_nuvoton(port), rest) {
            lemma_probed(
                port,
                entering_ite(port),
                leaving_ite(port),
                0x04,
                |id: u16| ite_chip(port, id),
                rest,
            );
            if let Outcome::Finished { rest, .. } = replay(probing_ite(port), rest) {
                lemma_probed(
                    port,
                    entering_fintek(port),
                    leaving(port),
                    0x04,
                    |id: u16| fintek_chip(port, id),
                    rest,
                );
            }
        }
    }
}

proof fn lemma_probed(
    port: u16,
    enter: PortTalk<()>,
    leave: PortTalk<()>,
    ldn: u8,
    recognise: spec_fn(u16) -> Option<SuperIoChip>,
    replies: Seq<Option<u8>>,
)
    ensures
        replay(probing(port, enter, leave, ldn, recognise), replies) matches Outcome::Finished {
            value: Some(chip),
            ..
        } ==> chip.iobase >= 0x100 && exists|id: u16|
            #[trigger] recognise(id) matches Some(blank) && chip == (SuperIoChip {
                iobase: chip.iobase,
                ..blank
            }),
{
    if let Outcome::Finished { value: id, rest } = replay(
        inside(enter, reading_id(port), leave),
        replies,
    ) {
        assert(recognise(id) is Some || recognise(id) is None);
    }
}

/// A known chip has three to eight fans, and only Nuvoton chips have the modern register map.
pub proof fn lemma_known_chip(chip: SuperIoChip)
    requires
        is_known(chip),
    ensures
        3 <= chip.fan_count <= 8,
        chip.modern ==> chip.family == ChipFamily::Nuvoton || chip.family == ChipFamily::Nct6687,
        chip.family == ChipFamily::Nuvoton ==> chip.modern == is_modern(chip.chip_id),
{
}

/// The hardware revision in an identification makes no difference to what a Nuvoton or Winbond
/// chip is taken for.
pub proof fn lemma_revision_does_not_matter(port: u16, id: u16, other: u16)
    requires
        family_id(id) == family_id(other),
    ensures
        nuvoton_chip(port, other) == (match nuvoton_chip(port, id) {
            Some(chip) => Some(SuperIoChip { chip_id: other, ..chip }),
            None => None,
        }),
{
}

/// No identification stands for chips of two makers.
pub proof fn lemma_makers_differ(port: u16, id: u16)
    ensures
        !(nuvoton_chip(port, id) is Some && ite_chip(port, id) is Some),
        !(nuvoton_chip(port, id) is Some && fintek_chip(port, id) is Some),
        !(ite_chip(port, id) is Some && fintek_chip(port, id) is Some),
{
}

/// Whether a conversation, if it ends on these replies, made `op` last.
pub open spec fn ends_on<T>(talk: PortTalk<T>, replies: Seq<Option<u8>>, op: PortOp) -> bool {
    replay(talk, replies) is Finished ==> {
        &&& requests(talk, replies).len() > 0
        &&& requests(talk, replies).last() == op
    }
}

proof fn lemma_inside_ends_on_leaving(
    enter: PortTalk<()>,
    inner: PortTalk<u16>,
    leave: PortTalk<()>,
    replies: Seq<Option<u8>>,
    op: PortOp,
)
    requires
        forall|rest: Seq<Option<u8>>| #[trigger] ends_on(leave, rest, op),
    ensures
        ends_on(inside(enter, inner, leave), replies, op),
{
    broadcast use crate::session::group_requests;

    if let Outcome::Finished { rest, .. } = replay(enter, replies) {
        if let Outcome::Finished { rest, .. } = replay(inner, rest) {
            assert(ends_on(leave, rest, op));
        }
    }
}

proof fn lemma_probing_ends_on_leaving(
    port: u16,
    enter: PortTalk<()>,
    leave: PortTalk<()>,
    ldn: u8,
    recognise: spec_fn(u16) -> Option<SuperIoChip>,
    replies: Seq<Option<u8>>,
    op: PortOp,
)
    requires
        forall|rest: Seq<Option<u8>>| #[trigger] ends_on(leave, rest, op),
    ensures
        ends_on(probing(port, enter, leave, ldn, recognise), replies, op),
{
    broadcast use crate::session::group_requests;

    let first = inside(enter, reading_id(port), leave);
    lemma_inside_ends_on_leaving(enter, reading_id(port), leave, replies, op);
    if let Outcome::Finished { rest, .. } = replay(first, replies) {
        lemma_inside_ends_on_leaving(enter, reading_iobase(port, ldn), leave, rest, op);
    }
}

/// Every probe ends by leaving configuration mode, whatever the ports answer and whether or not
/// a chip was found.
pub proof fn lemma_probes_leave(port: u16, replies: Seq<Option<u8>>)
    ensures
        ends_on(reading_raw_id(port), replies, PortOp::Write { port, value: 0xAA }),
        ends_on(probing_nuvoton(port), replies, PortOp::Write { port, value: 0xAA }),
        ends_on(
            probing_ite(port),
            replies,
            PortOp::Write { port: port.wrapping_add(1), value: 0x02 },
        ),
        ends_on(probing_fintek(port), replies, PortOp::Write { port, value: 0xAA }),
{
    let op = PortOp::Write { port, value: 0xAA };
    let op_ite = PortOp::Write { port: port.wrapping_add(1), value: 0x02 };
    assert forall|rest: Seq<Option<u8>>| #[trigger] ends_on(leaving(port), rest, op) by {
        broadcast use crate::session::group_requests;

    }
    assert forall|rest: Seq<Option<u8>>| #[trigger]
        ends_on(leaving_ite(port), rest, op_ite) by {
        broadcast use crate::session::group_requests;

    }
    let enter = entering_nuvoton(port);
    lemma_inside_ends_on_leaving(enter, reading_id(port), leaving(port), replies, op);
    lemma_probing_ends_on_leaving(
        port,
        enter,
        leaving(port),
        0x0B,
        |id: u16| nuvoton_chip(port, id),
        replies,
        op,
    );
    lemma_probing_ends_on_leaving(
        port,
        entering_ite(port),
        leaving_ite(port),
        0x04,
        |id: u16| ite_chip(port, id),
        replies,
        op_ite,
    );
    lemma_probing_ends_on_leaving(
        port,
        entering_fintek(port),
        leaving(port),
        0x04,
        |id: u16| fintek_chip(port, id),
        replies,
        op,
    );
}

/// A chip identification without the hardware revision in its lowest four bits.
pub fn family_of(id: u16) -> (family: u16)
    ensures
        family == family_id(id),
{
    id - id % 16
}

fn nuvoton_model_of(id: u16) -> (model: Option<Model>)
    ensures
        model == nuvoton_model(id),
{
    match family_of(id) {
        0xB470 => Some(Model { name: "NCT6775F", fans: 5 }),
        0xC330 => Some(Model { name: "NCT6776F", fans: 5 }),
        0xC560 => Some(Model { name: "NCT6779D", fans: 5 }),
        0xC800 => Some(Model { name: "NCT6791D", fans: 6 }),
        0xC910 => Some(Model { name: "NCT6792D", fans: 6 }),
        0xD120 => Some(Model { name: "NCT6793D", fans: 6 }),
        0xD350 => Some(Model { name: "NCT6795D", fans: 6 }),
        // The NCT6798D reports 0xD42B.
        0xD420 => Some(Model { name: "NCT6796D/6798D", fans: 7 }),
        0xD450 => Some(Model { name: "NCT6797D", fans: 7 }),
        0xA020 => Some(Model { name: "W83627DHG", fans: 3 }),
        0x8800 => Some(Model { name: "W83627EHF", fans: 5 }),
        0xA510 => Some(Model { name: "W83667HG", fans: 5 }),
        0xB350 => Some(Model { name: "W83677HG", fans: 5 }),
        _ => None,
    }
}

fn ite_model_of(id: u16) -> (model: Option<Model>)
    ensures
        model == ite_model(id),
{
    match id {
        0x8620 => Some(Model { name: "IT8620E", fans: 5 }),
        0x8628 => Some(Model { name: "IT8628E", fans: 5 }),
        0x8665 => Some(Model { name: "IT8665E", fans: 5 }),
        0x8686 => Some(Model { name: "IT8686E", fans: 5 }),
        0x8688 => Some(Model { name: "IT8688E", fans: 5 }),
        0x8783 => Some(Model { name: "IT8783E", fans: 5 }),
        0x8790 => Some(Model { name: "IT8790E", fans: 5 }),
        0x8792 => Some(Model { name: "IT8792E", fans: 5 }),
        0x8795 => Some(Model { name: "IT8795E", fans: 5 }),
        _ => None,
    }
}

fn fintek_model_of(id: u16) -> (model: Option<Model>)
    ensures
        model == fintek_model(id),
{
    match id {
        0x0504 => Some(Model { name: "F71808E", fans: 3 }),
        0x0507 => Some(Model { name: "F71858", fans: 3 }),
        0x0601 => Some(Model { name: "F71869A", fans: 3 }),
        0x0814 => Some(Model { name: "F71869", fans: 3 }),
        0x0541 => Some(Model { name: "F71882FG", fans: 3 }),
        0x0723 => Some(Model { name: "F71889FG", fans: 3 }),
        _ => None,
    }
}

impl SuperIoChip {
    /// Looks for a chip at both ports; returns the first one found.
    pub fn detect(r: &mut Ports) -> (out: Result<Option<Self>, PortOp>)
        ensures
            ran(detecting(), old(r).remaining(), final(r).remaining(), out),
    {
        if let Some(chip) = Self::detect_at(r, SIO_PORT_1)? {
            return Ok(Some(chip));
        }
        Self::detect_at(r, SIO_PORT_2)
    }

    /// Looks for a chip of any family at `port`.
    pub fn detect_at(r: &mut Ports, port: u16) -> (out: Result<Option<Self>, PortOp>)
        ensures
            ran(detecting_at(port), old(r).remaining(), final(r).remaining(), out),
    {
        Self::read_raw_id(r, port)?;
        if let Some(chip) = Self::probe_nuvoton(r, port)? {
            return Ok(Some(chip));
        }
        if let Some(chip) = Self::probe_ite(r, port)? {
            return Ok(Some(chip));
        }
        Self::probe_fintek(r, port)
    }

    /// The identification that any chip reports at `port`, supported or not.
    pub fn read_raw_id(r: &mut Ports, port: u16) -> (out: Result<u16, PortOp>)
        ensures
            ran(reading_raw_id(port), old(r).remaining(), final(r).remaining(), out),
    {
        Self::enter_nuvoton(r, port)?;
        let id: u16 = Self::sio_read_id(r, port)?;
        r.write_byte(port, 0xAA)?;
        Ok(id)
    }

    fn enter_nuvoton(r: &mut Ports, port: u16) -> (out: Result<(), PortOp>)
        ensures
            ran(entering_nuvoton(port), old(r).remaining(), final(r).remaining(), out),
    {
        r.write_byte(port, 0x87)?;
        r.write_byte(port, 0x87)
    }

    fn enter_ite(r: &mut Ports, port: u16) -> (out: Result<(), PortOp>)
        ensures
            ran(entering_ite(port), old(r).remaining(), final(r).remaining(), out),
    {
        r.write_byte(port, 0x87)?;
        r.write_byte(port, 0x01)?;
        r.write_byte(port, 0x55)?;
        r.write_byte(
            port,
            if port == SIO_PORT_1 {
                0x55
            } else {
                0xAA
            },
        )
    }

    fn leave_ite(r: &mut Ports, port: u16) -> (out: Result<(), PortOp>)
        ensures
            ran(leaving_ite(port), old(r).remaining(), final(r).remaining(), out),
    {
        r.write_byte(port, 0x02)?;
        r.write_byte(port.wrapping_add(1), 0x02)
    }

    fn enter_fintek(r: &mut Ports, port: u16) -> (out: Result<(), PortOp>)
        ensures
            ran(entering_fintek(port), old(r).remaining(), final(r).remaining(), out),
    {
        r.write_byte(port, 0x87)?;
        r.write_byte(port, 0x87)?;
        r.write_byte(port, 0x87)
    }

    /// Probes for a Nuvoton or Winbond chip at `port`.
    pub fn probe_nuvoton(r: &mut Ports, port: u16) -> (out: Result<Option<Self>, PortOp>)
        ensures
            ran(probing_nuvoton(port), old(r).remaining(), final(r).remaining(), out),
    {
        Self::enter_nuvoton(r, port)?;
        let chip_id: u16 = Self::sio_read_id(r, port)?;
        r.write_byte(port, 0xAA)?;

        // The NCT6687D has a register interface of its own.
        let nct6687 = family_of(chip_id) == 0xD590;
        let model = if nct6687 {
            Model { name: "NCT6687D", fans: 8 }
        } else {
            match nuvoton_model_of(chip_id) {
                Some(model) => model,
                None => return Ok(None),
            }
        };

        Self::enter_nuvoton(r, port)?;
        let iobase: u16 = Self::sio_get_iobase(r, port, 0x0B)?;
        r.write_byte(port, 0xAA)?;
        if iobase < 0x100 {
            return Ok(None);
        }
        Ok(
            Some(
                SuperIoChip {
                    family: if nct6687 {
                        ChipFamily::Nct6687
                    } else {
                        ChipFamily::Nuvoton
                    },
                    chip_id,
                    chip_name: model.name,
                    sio_port: port,
                    iobase,
                    fan_count: model.fans,
                    modern: family_of(chip_id) >= 0xC560,
                },
            ),
        )
    }

    /// Probes for an ITE chip at `port`.
    pub fn probe_ite(r: &mut Ports, port: u16) -> (out: Result<Option<Self>, PortOp>)
        ensures
            ran(probing_ite(port), old(r).remaining(), final(r).remaining(), out),
    {
        Self::enter_ite(r, port)?;
        let chip_id: u16 = Self::sio_read_id(r, port)?;
        Self::leave_ite(r, port)?;

        let model = match ite_model_of(chip_id) {
            Some(model) => model,
            None => return Ok(None),
        };

        Self::enter_ite(r, port)?;
        let iobase: u16 = Self::sio_get_iobase(r, port, 0x04)?;
        Self::leave_ite(r, port)?;
        if iobase < 0x100 {
            return Ok(None);
        }
        Ok(
            Some(
                SuperIoChip {
                    family: ChipFamily::Ite,
                    chip_id,
                    chip_name: model.name,
                    sio_port: port,
                    iobase,
                    fan_count: model.fans,
                    modern: false,
                },
            ),
        )
    }

    /// Probes for a Fintek chip at `port`.
    pub fn probe_fintek(r: &mut Ports, port: u16) -> (out: Result<Option<Self>, PortOp>)
        ensures
            ran(probing_fintek(port), old(r).remaining(), final(r).remaining(), out),
    {
        Self::enter_fintek(r, port)?;
        let chip_id: u16 = Self::sio_read_id(r, port)?;
        r.write_byte(port, 0xAA)?;

        let model = match fintek_model_of(chip_id) {
            Some(model) => model,
            None => return Ok(None),
        };

        Self::enter_fintek(r, port)?;
        let iobase: u16 = Self::sio_get_iobase(r, port, 0x04)?;
        r.write_byte(port, 0xAA)?;
        if iobase < 0x100 {
            return Ok(None);
        }
        Ok(
            Some(
                SuperIoChip {
                    family: ChipFamily::Fintek,
                    chip_id,
                    chip_name: model.name,
                    sio_port: port,
                    iobase,
                    fan_count: model.fans,
                    modern: false,
                },
            ),
        )
    }

    fn read_word(r: &mut Ports, port: u16, hi_reg: u8, lo_reg: u8) -> (out: Result<u16, PortOp>)
        ensures
            ran(reading_word(port, hi_reg, lo_reg), old(r).remaining(), final(r).remaining(), out),
    {
        r.write_byte(port, hi_reg)?;
        let hi: u16 = r.read_byte_or_zero(port.wrapping_add(1))? as u16;
        r.write_byte(port, lo_reg)?;
        let lo: u16 = r.read_byte_or_zero(port.wrapping_add(1))? as u16;
        Ok(hi * 256 + lo)
    }

    /// Reads the 16-bit chip identification; the chip must be in configuration mode.
    pub fn sio_read_id(r: &mut Ports, port: u16) -> (out: Result<u16, PortOp>)
        ensures
            ran(reading_id(port), old(r).remaining(), final(r).remaining(), out),
    {
        Self::read_word(r, port, 0x20, 0x21)
    }

    /// Enables logical device `ldn` and reads its base port; the chip must be in configuration
    /// mode.
    pub fn sio_get_iobase(r: &mut Ports, port: u16, ldn: u8) -> (out: Result<u16, PortOp>)
        ensures
            ran(reading_iobase(port, ldn), old(r).remaining(), final(r).remaining(), out),
    {
        r.write_byte(port, 0x07)?;
        r.write_byte(port.wrapping_add(1), ldn)?;
        r.write_byte(port, 0x30)?;
        r.write_byte(port.wrapping_add(1), 0x01)?;
        Self::read_word(r, port, 0x60, 0x61)
    }
}

} // verus!
