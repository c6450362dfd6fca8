//! A motherboard with one SuperIO chip, and what looking for the chip comes to there.
//!
//! A chip is locked until its maker's key has been written to the configuration port. Only then
//! can its configuration registers be read, through the port after it.
use vstd::prelude::*;

use crate::ports::{PortOp, PortTalk};
use crate::session::{converse, lemma_converse_bind};
use crate::superio::{
    detecting, detecting_at, entering_fintek, entering_ite, entering_nuvoton, family_id,
    fintek_chip, first_of, inside, ite_chip, leaving, leaving_ite, lemma_makers_differ,
    nuvoton_chip, probing_fintek, probing_ite, probing_nuvoton, reading_id, reading_iobase,
    reading_raw_id, with_iobase, ChipFamily, SuperIoChip, SIO_PORT_1, SIO_PORT_2,
};
use crate::system::{diagnosing, opening, reading_fans, DiagnosisView, FanReading, SystemView};

verus! {

/// How a chip is unlocked and locked.
pub enum Lock {
    /// By two times 0x87, and by 0xAA: Nuvoton, Winbond and Fintek.
    Double,
    /// By four bytes, and by setting bit 1 of register 0x02: ITE.
    Sequence,
}

/// A motherboard, the port of its chip, what the chip's configuration registers hold, and the
/// chip's state.
pub struct Board {
    /// The configuration port at which the chip answers.
    pub port: u16,
    pub lock: Lock,
    /// The chip's identification.
    pub id: u16,
    /// The base port of each logical device.
    pub bases: Map<u8, u16>,
    /// Whether the chip is unlocked.
    pub open: bool,
    /// How many bytes of the key the chip has seen.
    pub matched: int,
    /// The configuration register that is selected.
    pub index: u8,
    /// The logical device that is selected.
    pub ldn: u8,
}

impl Board {
    /// The bytes that unlock the chip.
    pub open spec fn key(self) -> Seq<u8> {
        match self.lock {
            Lock::Double => seq![0x87u8, 0x87],
            Lock::Sequence => seq![
                0x87u8,
                0x01,
                0x55,
                if self.port == SIO_PORT_1 {
                    0x55
                } else {
                    0xAA
                },
            ],
        }
    }

    /// The locked chip after one more byte at its configuration port.
    pub open spec fn listen(self, value: u8) -> Board {
        let matched = if value == self.key()[self.matched] {
            self.matched + 1
        } else if value == 0x87 {
            1int
        } else {
            0int
        };
        if matched == self.key().len() {
            Board { open: true, matched: 0, ..self }
        } else {
            Board { matched, ..self }
        }
    }

    /// The unlocked chip after a byte at its configuration port.
    pub open spec fn select(self, value: u8) -> Board {
        if value == 0xAA && self.lock is Double {
            Board { open: false, ..self }
        } else {
            Board { index: value, ..self }
        }
    }

    /// The unlocked chip after a byte was written to the selected register.
    pub open spec fn store(self, value: u8) -> Board {
        if self.index == 0x07 {
            Board { ldn: value, ..self }
        } else if self.index == 0x02 && value == 0x02 && self.lock is Sequence {
            Board { open: false, ..self }
        } else {
            self
        }
    }

    /// What the selected register holds; of the others than these nothing is known.
    pub open spec fn value(self) -> u8 {
        if self.index == 0x20 {
            (self.id / 256) as u8
        } else if self.index == 0x21 {
            (self.id % 256) as u8
        } else if self.index == 0x60 {
            (self.bases[self.ldn] / 256) as u8
        } else if self.index == 0x61 {
            (self.bases[self.ldn] % 256) as u8
        } else {
            0
        }
    }

    /// The chip that the board's identification stands for, without its base port, and the
    /// logical device that has the base port.
    pub open spec fn kind(self) -> Option<(SuperIoChip, u8)> {
        let (chip, ldn) = match self.lock {
            Lock::Sequence => (ite_chip(self.port, self.id), 0x04u8),
            Lock::Double => match nuvoton_chip(self.port, self.id) {
                Some(c) => (Some(c), 0x0Bu8),
                None => (fintek_chip(self.port, self.id), 0x04u8),
            },
        };
        match chip {
            Some(c) => Some((c, ldn)),
            None => None,
        }
    }

    /// The chip that is on the board, if it is a supported one with a base port.
    pub open spec fn chip(self) -> Option<SuperIoChip> {
        match self.kind() {
            Some((blank, ldn)) => with_iobase(blank, self.bases[ldn]),
            None => None,
        }
    }

    /// Whether the chip is locked and has seen nothing of its key.
    pub open spec fn at_rest(self) -> bool {
        !self.open && self.matched == 0
    }

    /// Whether two boards have the same chip, in whatever state.
    pub open spec fn same_chip(self, other: Board) -> bool {
        &&& self.port == other.port
        &&& self.lock == other.lock
        &&& self.id == other.id
        &&& self.bases == other.bases
    }
}

/// How a board reacts to a port access. Ports that nothing answers at read as 0xFF.
pub open spec fn answering() -> spec_fn(Board, PortOp) -> (Board, Option<u8>) {
    |board: Board, op: PortOp|
        match op {
            PortOp::Write { port, value } => if port == board.port {
                if board.open {
                    (board.select(value), None)
                } else {
                    (board.listen(value), None)
                }
            } else if port == board.port + 1 && board.open {
                (board.store(value), None)
            } else {
                (board, None)
            },
            PortOp::Read { port } => if port == board.port + 1 && board.open {
                (board, Some(board.value()))
            } else {
                (board, Some(0xFF))
            },
        }
}

/// Whether a port is one of the two configuration ports.
pub open spec fn is_config_port(port: u16) -> bool {
    port == SIO_PORT_1 || port == SIO_PORT_2
}

/// What a conversation in configuration mode reads: `value` where it reaches the chip, which is
/// at rest again afterwards, and 0xFFFF otherwise.
spec fn reads(talk: PortTalk<u16>, board: Board, value: u16) -> bool {
    let (after, read) = converse(talk, board, answering());
    after.at_rest() && after.same_chip(board) && read == value
}

/// What the identification at `port` reads as with an entry sequence that unlocks locks of one
/// kind.
spec fn id_seen(board: Board, port: u16, lock: Lock) -> u16 {
    if port == board.port && board.lock == lock {
        board.id
    } else {
        0xFFFF
    }
}

proof fn lemma_nuvoton_id(board: Board, port: u16)
    requires
        is_config_port(port),
        is_config_port(board.port),
        board.at_rest(),
    ensures
        reads(
            inside(entering_nuvoton(port), reading_id(port), leaving(port)),
            board,
            id_seen(board, port, Lock::Double),
        ),
{
    broadcast use crate::session::group_converse;

}

proof fn lemma_fintek_id(board: Board, port: u16)
    requires
        is_config_port(port),
        is_config_port(board.port),
        board.at_rest(),
    ensures
        reads(
            inside(entering_fintek(port), reading_id(port), leaving(port)),
            board,
            id_seen(board, port, Lock::Double),
        ),
{
    broadcast use crate::session::group_converse;

}

proof fn lemma_ite_id(board: Board, port: u16)
    requires
        is_config_port(port),
        is_config_port(board.port),
        board.at_rest(),
    ensures
        reads(
            inside(entering_ite(port), reading_id(port), leaving_ite(port)),
            board,
            id_seen(board, port, Lock::Sequence),
        ),
{
    broadcast use crate::session::group_converse;

}

proof fn lemma_nuvoton_base(board: Board, ldn: u8)
    requires
        is_config_port(board.port),
        board.at_rest(),
        board.lock is Double,
    ensures
        reads(
            inside(
                entering_nuvoton(board.port),
                reading_iobase(board.port, ldn),
                leaving(board.port),
            ),
            board,
            board.bases[ldn],
        ),
{
    broadcast use crate::session::group_converse;

}

proof fn lemma_fintek_base(board: Board, ldn: u8)
    requires
        is_config_port(board.port),
        board.at_rest(),
        board.lock is Double,
    ensures
        reads(
            inside(
                entering_fintek(board.port),
                reading_iobase(board.port, ldn),
                leaving(board.port),
            ),
            board,
            board.bases[ldn],
        ),
{
    broadcast use crate::session::group_converse;

}

proof fn lemma_ite_base(board: Board, ldn: u8)
    requires
        is_config_port(board.port),
        board.at_rest(),
        board.lock is Sequence,
    ensures
        reads(
            inside(
                entering_ite(board.port),
                reading_iobase(board.port, ldn),
                leaving_ite(board.port),
            ),
            board,
            board.bases[ldn],
        ),
{
    broadcast use crate::session::group_converse;

}

/// What a probe finds: a chip where it reaches the board's one and knows it.
spec fn finds(
    talk: PortTalk<Option<SuperIoChip>>,
    board: Board,
    chip: Option<SuperIoChip>,
) -> bool {
    let (after, found) = converse(talk, board, answering());
    after.at_rest() && after.same_chip(board) && found == chip
}

proof fn lemma_nuvoton_probe(board: Board, port: u16)
    requires
        is_config_port(port),
        is_config_port(board.port),
        board.at_rest(),
    ensures
        finds(
            probing_nuvoton(port),
            board,
            match nuvoton_chip(port, id_seen(board, port, Lock::Double)) {
                Some(blank) => with_iobase(blank, board.bases[0x0B]),
                None => None,
            },
        ),
{
    broadcast use crate::session::group_converse;

    lemma_nuvoton_id(board, port);
    let talk = inside(entering_nuvoton(port), reading_id(port), leaving(port));
    let (after, id) = converse(talk, board, answering());
    if nuvoton_chip(port, id) is Some {
        lemma_nuvoton_base(after, 0x0B);
    }
}

proof fn lemma_ite_probe(board: Board, port: u16)
    requires
        is_config_port(port),
        is_config_port(board.port),
        board.at_rest(),
    ensures
        finds(
            probing_ite(port),
            board,
            match ite_chip(port, id_seen(board, port, Lock::Sequence)) {
                Some(blank) => with_iobase(blank, board.bases[0x04]),
                None => None,
            },
        ),
{
    broadcast use crate::session::group_converse;

    lemma_ite_id(board, port);
    let talk = inside(entering_ite(port), reading_id(port), leaving_ite(port));
    let (after, id) = converse(talk, board, answering());
    if ite_chip(port, id) is Some {
        lemma_ite_base(after, 0x04);
    }
}

proof fn lemma_fintek_probe(board: Board, port: u16)
    requires
        is_config_port(port),
        is_config_port(board.port),
        board.at_rest(),
    ensures
        finds(
            probing_fintek(port),
            board,
            match fintek_chip(port, id_seen(board, port, Lock::Double)) {
                Some(blank) => with_iobase(blank, board.bases[0x04]),
                None => None,
            },
        ),
{
    broadcast use crate::session::group_converse;

    lemma_fintek_id(board, port);
    let talk = inside(entering_fintek(port), reading_id(port), leaving(port));
    let (after, id) = converse(talk, board, answering());
    if fintek_chip(port, id) is Some {
        lemma_fintek_base(after, 0x04);
    }
}

proof fn lemma_found_at(board: Board, port: u16)
    requires
        is_config_port(port),
        is_config_port(board.port),
        board.at_rest(),
    ensures
        finds(
            detecting_at(port),
            board,
            if port == board.port {
                board.chip()
            } else {
                None
            },
        ),
{
    let (nuvoton, ite, fintek) = (
        probing_nuvoton(port),
        probing_ite(port),
        probing_fintek(port),
    );
    lemma_nuvoton_id(board, port);
    let board_1 = converse(reading_raw_id(port), board, answering()).0;
    lemma_nuvoton_probe(board_1, port);
    let board_2 = converse(nuvoton, board_1, answering()).0;
    lemma_ite_probe(board_2, port);
    let board_3 = converse(ite, board_2, answering()).0;
    lemma_fintek_probe(board_3, port);
    lemma_makers_differ(port, board.id);
    lemma_followed_by(reading_raw_id(port), first_of(nuvoton, first_of(ite, fintek)), board);
    lemma_first_of(nuvoton, first_of(ite, fintek), board_1);
    lemma_first_of(ite, fintek, board_2);
}

proof fn lemma_followed_by(
    first: PortTalk<u16>,
    second: PortTalk<Option<SuperIoChip>>,
    board: Board,
)
    ensures
        converse(first.followed_by(second), board, answering()) == converse(
            second,
            converse(first, board, answering()).0,
            answering(),
        ),
{
    broadcast use crate::session::group_converse;

}

/// The second probe is held where the first one finds nothing.
proof fn lemma_first_of(
    first: PortTalk<Option<SuperIoChip>>,
    second: PortTalk<Option<SuperIoChip>>,
    board: Board,
)
    ensures
        converse(first_of(first, second), board, answering()) == ({
            let (after, found) = converse(first, board, answering());
            if found is Some {
                (after, found)
            } else {
                converse(second, after, answering())
            }
        }),
{
    broadcast use crate::session::group_converse;

}

/// Looking for the chip finds the one that is on the board, whichever maker's it is and
/// whichever port it answers at, and none if it is not supported. The chip is locked again
/// afterwards.
pub proof fn lemma_chip_is_found(board: Board)
    requires
        is_config_port(board.port),
        board.at_rest(),
    ensures
        converse(detecting(), board, answering()).1 == board.chip(),
        converse(detecting(), board, answering()).0.at_rest(),
        converse(detecting(), board, answering()).0.same_chip(board),
{
    lemma_first_of(detecting_at(SIO_PORT_1), detecting_at(SIO_PORT_2), board);
    lemma_found_at(board, SIO_PORT_1);
    lemma_found_at(converse(detecting_at(SIO_PORT_1), board, answering()).0, SIO_PORT_2);
}

/// The models that the data sheets name: family, name, number of fans, and whether the register
/// map is the modern one. The last digit of a Nuvoton identification is the revision.
pub open spec fn model_named(lock: Lock, id: u16) -> Option<(ChipFamily, Seq<char>, int, bool)> {
    let nuvoton = ChipFamily::Nuvoton;
    if lock is Sequence {
        let name = if id == 0x8620 {
            "IT8620E"@
        } else if id == 0x8628 {
            "IT8628E"@
        } else if id == 0x8665 {
            "IT8665E"@
        } else if id == 0x8686 {
            "IT8686E"@
        } else if id == 0x8688 {
            "IT8688E"@
        } else if id == 0x8783 {
            "IT8783E"@
        } else if id == 0x8790 {
            "IT8790E"@
        } else if id == 0x8792 {
            "IT8792E"@
        } else if id == 0x8795 {
            "IT8795E"@
        } else {
            Seq::empty()
        };
        if name.len() == 0 {
            None
        } else {
            Some((ChipFamily::Ite, name, 5, false))
        }
    } else if id / 16 == 0xD59 {
        Some((ChipFamily::Nct6687, "NCT6687D"@, 8, true))
    } else if id / 16 == 0xB47 {
        Some((nuvoton, "NCT6775F"@, 5, false))
    } else if id / 16 == 0xC33 {
        Some((nuvoton, "NCT6776F"@, 5, false))
    } else if id / 16 == 0xC56 {
        Some((nuvoton, "NCT6779D"@, 5, true))
    } else if id / 16 == 0xC80 {
        Some((nuvoton, "NCT6791D"@, 6, true))
    } else if id / 16 == 0xC91 {
        Some((nuvoton, "NCT6792D"@, 6, true))
    } else if id / 16 == 0xD12 {
        Some((nuvoton, "NCT6793D"@, 6, true))
    } else if id / 16 == 0xD35 {
        Some((nuvoton, "NCT6795D"@, 6, true))
    } else if id / 16 == 0xD42 {
        Some((nuvoton, "NCT6796D/6798D"@, 7, true))
    } else if id / 16 == 0xD45 {
        Some((nuvoton, "NCT6797D"@, 7, true))
    } else if id / 16 == 0xA02 {
        Some((nuvoton, "W83627DHG"@, 3, false))
    } else if id / 16 == 0x880 {
        Some((nuvoton, "W83627EHF"@, 5, false))
    } else if id / 16 == 0xA51 {
        Some((nuvoton, "W83667HG"@, 5, false))
    } else if id / 16 == 0xB35 {
        Some((nuvoton, "W83677HG"@, 5, false))
    } else if id == 0x0504 {
        Some((ChipFamily::Fintek, "F71808E"@, 3, false))
    } else if id == 0x0507 {
        Some((ChipFamily::Fintek, "F71858"@, 3, false))
    } else if id == 0x0601 {
        Some((ChipFamily::Fintek, "F71869A"@, 3, false))
    } else if id == 0x0814 {
        Some((ChipFamily::Fintek, "F71869"@, 3, false))
    } else if id == 0x0541 {
        Some((ChipFamily::Fintek, "F71882FG"@, 3, false))
    } else if id == 0x0723 {
        Some((ChipFamily::Fintek, "F71889FG"@, 3, false))
    } else {
        None
    }
}

/// The base port of a board's hardware monitor: that of logical device 11 of a Nuvoton chip, and
/// of logical device 4 of another one.
pub open spec fn monitor_base(board: Board, family: ChipFamily) -> u16 {
    if family == ChipFamily::Nuvoton || family == ChipFamily::Nct6687 {
        board.bases[11]
    } else {
        board.bases[4]
    }
}

/// A chip at 0x2E or 0x4E that the data sheets name, with a base port of 0x100 or above, is found
/// as what it is; on any other board no chip is found.
pub proof fn lemma_models_are_found(board: Board)
    requires
        board.port == 0x2E || board.port == 0x4E,
        board.at_rest(),
    ensures
        match (model_named(board.lock, board.id), converse(detecting(), board, answering()).1) {
            (None, found) => found is None,
            (Some((family, name, fans, modern)), found) => if monitor_base(board, family) < 0x100 {
                found is None
            } else {
                &&& found is Some
                &&& found->0.family == family
                &&& found->0.chip_id == board.id
                &&& found->0.chip_name@ == name
                &&& found->0.sio_port == board.port
                &&& found->0.iobase == monitor_base(board, family)
                &&& found->0.fan_count == fans
                &&& found->0.modern == modern
            },
        },
{
    lemma_chip_is_found(board);
    lemma_kind(board);
}

proof fn lemma_kind(board: Board)
    ensures
        match (model_named(board.lock, board.id), board.kind()) {
            (None, kind) => kind is None,
            (Some((family, name, fans, modern)), kind) => {
                &&& kind is Some
                &&& (kind->0).0.family == family
                &&& (kind->0).0.chip_id == board.id
                &&& (kind->0).0.chip_name@ == name
                &&& (kind->0).0.sio_port == board.port
                &&& (kind->0).0.fan_count == fans
                &&& (kind->0).0.modern == modern
                &&& monitor_base(board, family) == board.bases[(kind->0).1]
            },
        },
{
    reveal_strlit("IT8620E");
    reveal_strlit("IT8628E");
    reveal_strlit("IT8665E");
    reveal_strlit("IT8686E");
    reveal_strlit("IT8688E");
    reveal_strlit("IT8783E");
    reveal_strlit("IT8790E");
    reveal_strlit("IT8792E");
    reveal_strlit("IT8795E");
}

/// Opening the backend on an open driver finds the board's chip, with no mode saved yet.
pub proof fn lemma_backend_opens(board: Board)
    ensures
        ({
            let (after, b) = converse(opening(true), board, answering());
            &&& (after, b.chip) == converse(detecting(), board, answering())
            &&& b.ring0
            &&& b.saved_modes == Map::<usize, u8>::empty()
        }),
{
    lemma_opening(board);
}

proof fn lemma_opening(board: Board)
    ensures
        converse(opening(true), board, answering()) == ({
            let (after, chip) = converse(detecting(), board, answering());
            (after, SystemView { ring0: true, chip, saved_modes: Map::empty() })
        }),
{
    let next = |chip: Option<SuperIoChip>|
        PortTalk::End(SystemView { ring0: true, chip, saved_modes: Map::empty() });
    lemma_converse_bind(detecting(), next, board, answering());
    assert(opening(true) == detecting().bind(next));
    reveal_with_fuel(converse, 2);
}

/// The identification that the two times 0x87 show at a port: that of a chip which they unlock
/// there, and all ones otherwise.
pub open spec fn shown_id(board: Board, port: u16) -> u16 {
    if board.port == port && board.lock is Double {
        board.id
    } else {
        0xFFFF
    }
}

/// A diagnosis tells the identification at each of the two ports, with its last digit cleared as
/// well, and the chip that is found.
pub proof fn lemma_diagnosed(board: Board)
    requires
        board.port == 0x2E || board.port == 0x4E,
        board.at_rest(),
    ensures
        ({
            let d = converse(diagnosing(), board, answering()).1;
            &&& d.id_1 == shown_id(board, 0x2E)
            &&& d.id_2 == shown_id(board, 0x4E)
            &&& d.family_1 == 16 * (d.id_1 / 16)
            &&& d.family_2 == 16 * (d.id_2 / 16)
            &&& d.chip == board.chip()
        }),
{
    lemma_nuvoton_id(board, 0x2E);
    let one = converse(reading_raw_id(0x2E), board, answering()).0;
    lemma_nuvoton_id(one, 0x4E);
    let two = converse(reading_raw_id(0x4E), one, answering()).0;
    lemma_chip_is_found(two);
    lemma_diagnosis(board);
}

proof fn lemma_diagnosis(board: Board)
    ensures
        ({
            let d = converse(diagnosing(), board, answering()).1;
            let (one, id_1) = converse(reading_raw_id(SIO_PORT_1), board, answering());
            let (two, id_2) = converse(reading_raw_id(SIO_PORT_2), one, answering());
            let (three, chip) = converse(detecting(), two, answering());
            &&& d.id_1 == id_1
            &&& d.id_2 == id_2
            &&& d.family_1 == 16 * (id_1 / 16)
            &&& d.family_2 == 16 * (id_2 / 16)
            &&& d.chip == chip
        }),
{
    let (one, id_1) = converse(reading_raw_id(SIO_PORT_1), board, answering());
    let (two, id_2) = converse(reading_raw_id(SIO_PORT_2), one, answering());
    let (three, chip) = converse(detecting(), two, answering());
    let last = |fans: Seq<FanReading>|
        PortTalk::End(
            DiagnosisView {
                id_1,
                family_1: family_id(id_1),
                id_2,
                family_2: family_id(id_2),
                chip,
                fans,
            },
        );
    let k3 = |chip: Option<SuperIoChip>|
        reading_fans(chip).bind(
            |fans: Seq<FanReading>|
                PortTalk::End(
                    DiagnosisView {
                        id_1,
                        family_1: family_id(id_1),
                        id_2,
                        family_2: family_id(id_2),
                        chip,
                        fans,
                    },
                ),
        );
    let k2 = |id_2: u16|
        detecting().bind(
            |chip: Option<SuperIoChip>|
                reading_fans(chip).bind(
                    |fans: Seq<FanReading>|
                        PortTalk::End(
                            DiagnosisView {
                                id_1,
                                family_1: family_id(id_1),
                                id_2,
                                family_2: family_id(id_2),
                                chip,
                                fans,
                            },
                        ),
                ),
        );
    let k1 = |id_1: u16|
        reading_raw_id(SIO_PORT_2).bind(
            |id_2: u16|
                detecting().bind(
                    |chip: Option<SuperIoChip>|
                        reading_fans(chip).bind(
                            |fans: Seq<FanReading>|
                                PortTalk::End(
                                    DiagnosisView {
                                        id_1,
                                        family_1: family_id(id_1),
                                        id_2,
                                        family_2: family_id(id_2),
                                        chip,
                                        fans,
                                    },
                                ),
                        ),
                ),
        );
    lemma_converse_bind(reading_raw_id(SIO_PORT_1), k1, board, answering());
    assert(diagnosing() == reading_raw_id(SIO_PORT_1).bind(k1));
    lemma_converse_bind(reading_raw_id(SIO_PORT_2), k2, one, answering());
    assert(k1(id_1) == reading_raw_id(SIO_PORT_2).bind(k2));
    lemma_converse_bind(detecting(), k3, two, answering());
    assert(k2(id_2) == detecting().bind(k3));
    lemma_converse_bind(reading_fans(chip), last, three, answering());
    assert(k3(chip) == reading_fans(chip).bind(last));
    reveal_with_fuel(converse, 2);
}

} // verus!
