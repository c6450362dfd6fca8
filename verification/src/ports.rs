//! Single-byte access to the I/O ports of the machine, and how a kernel driver is asked for it.
use vstd::prelude::*;

use crate::session::{asking, ran, Dialogue, Session};

verus! {

broadcast use crate::session::group_replay;

/// One access to an I/O port.
#[derive(Clone, Copy, PartialEq, Eq, Structural, Debug)]
pub enum PortOp {
    /// Read one byte from `port`.
    Read { port: u16 },
    /// Write `value` to `port`.
    Write { port: u16, value: u8 },
}

/// The replies to port accesses: the byte that was read, or `None` where the access failed. A
/// write has a reply too, which nothing depends on.
pub type Ports = Session<Option<u8>>;

/// A conversation with the I/O ports.
pub type PortTalk<T> = Dialogue<PortOp, Option<u8>, T>;

/// Reads one byte; `None` where the access fails.
pub open spec fn reading(port: u16) -> PortTalk<Option<u8>> {
    asking(PortOp::Read { port })
}

/// Reads one byte, zero where the access fails.
pub open spec fn reading_or_zero(port: u16) -> PortTalk<u8> {
    reading(port).bind(
        |byte: Option<u8>|
            Dialogue::End(
                match byte {
                    Some(b) => b,
                    None => 0u8,
                },
            ),
    )
}

/// Writes one byte; whether the write succeeds makes no difference.
pub open spec fn writing(port: u16, value: u8) -> PortTalk<()> {
    asking(PortOp::Write { port, value }).followed_by(Dialogue::End(()))
}

/// Reads a byte by `first`, and another one by `second` if the first is there. Ends with
/// `decode` of both, or with `None` as soon as one of them is missing.
pub open spec fn reading_pair(
    first: PortTalk<Option<u8>>,
    second: PortTalk<Option<u8>>,
    decode: spec_fn(u8, u8) -> u32,
) -> PortTalk<Option<u32>> {
    first.bind(
        |hi: Option<u8>|
            match hi {
                None => Dialogue::End(None),
                Some(h) => second.bind(
                    |lo: Option<u8>|
                        Dialogue::End(
                            match lo {
                                None => None,
                                Some(l) => Some(decode(h, l)),
                            },
                        ),
                ),
            },
    )
}

/// Reads a byte by `first` and ends with `decode` of it, or with `None` where it is missing.
pub open spec fn reading_as(
    first: PortTalk<Option<u8>>,
    decode: spec_fn(u8) -> u8,
) -> PortTalk<Option<u8>> {
    first.bind(
        |byte: Option<u8>|
            Dialogue::End(
                match byte {
                    None => None,
                    Some(b) => Some(decode(b)),
                },
            ),
    )
}

impl Session<Option<u8>> {
    /// Reads one byte from `port`.
    pub fn read_byte(&mut self, port: u16) -> (out: Result<Option<u8>, PortOp>)
        ensures
            ran(reading(port), old(self).remaining(), final(self).remaining(), out),
    {
        self.ask(PortOp::Read { port })
    }

    /// Reads one byte from `port`, zero where the access fails.
    pub fn read_byte_or_zero(&mut self, port: u16) -> (out: Result<u8, PortOp>)
        ensures
            ran(reading_or_zero(port), old(self).remaining(), final(self).remaining(), out),
    {
        match self.read_byte(port)? {
            Some(byte) => Ok(byte),
            None => Ok(0),
        }
    }

    /// Writes `value` to `port`.
    pub fn write_byte(&mut self, port: u16, value: u8) -> (out: Result<(), PortOp>)
        ensures
            ran(writing(port, value), old(self).remaining(), final(self).remaining(), out),
    {
        self.ask(PortOp::Write { port, value })?;
        Ok(())
    }
}

/// The driver's control code for [`PortOp::Read`].
pub const IOCTL_READ_IO_PORT_BYTE: u32 = 0x9C4060CC;

/// The driver's control code for [`PortOp::Write`].
pub const IOCTL_WRITE_IO_PORT_BYTE: u32 = 0x9C40A0D8;

/// How Windows composes a device control code from the device type, the access that the handle
/// needs (1 to read, 2 to write), the function number and the buffering method.
pub open spec fn ctl_code(device_type: int, access: int, function: int, method: int) -> int {
    device_type * 0x10000 + access * 0x4000 + function * 4 + method
}

/// Both control codes belong to the driver's device type 40000 and use buffered transfer: the
/// one is its function 0x833 with read access, the other its function 0x836 with write access.
pub proof fn lemma_control_codes()
    ensures
        IOCTL_READ_IO_PORT_BYTE == ctl_code(40000, 1, 0x833, 0),
        IOCTL_WRITE_IO_PORT_BYTE == ctl_code(40000, 2, 0x836, 0),
{
}

/// The bytes that the driver is sent for a port access: the port as a 32-bit number, its lowest
/// byte first, and then the value that is written.
pub open spec fn input_bytes(op: PortOp) -> Seq<u8> {
    match op {
        PortOp::Read { port } => seq![(port % 256) as u8, (port / 256) as u8, 0u8, 0u8],
        PortOp::Write { port, value } => seq![
            (port % 256) as u8,
            (port / 256) as u8,
            0u8,
            0u8,
            value,
        ],
    }
}

/// The bytes that the driver is sent for a port access.
pub fn driver_input(op: PortOp) -> (bytes: Vec<u8>)
    ensures
        bytes@ == input_bytes(op),
{
    let port: u16 = match op {
        PortOp::Read { port } => port,
        PortOp::Write { port, .. } => port,
    };
    let mut bytes: Vec<u8> = Vec::new();
    bytes.push((port % 256) as u8);
    bytes.push((port / 256) as u8);
    bytes.push(0);
    bytes.push(0);
    if let PortOp::Write { value, .. } = op {
        bytes.push(value);
    }
    assert(bytes@ =~= input_bytes(op));
    bytes
}

/// The control code that the driver is sent for a port access.
pub fn control_code(op: PortOp) -> (code: u32)
    ensures
        code == (match op {
            PortOp::Read { .. } => ctl_code(40000, 1, 0x833, 0),
            PortOp::Write { .. } => ctl_code(40000, 2, 0x836, 0),
        }),
{
    match op {
        PortOp::Read { .. } => IOCTL_READ_IO_PORT_BYTE,
        PortOp::Write { .. } => IOCTL_WRITE_IO_PORT_BYTE,
    }
}

/// The driver is sent the port of an access, as four bytes from the lowest on, and after them the
/// value if it is a write, and nothing else.
pub proof fn lemma_input(op: PortOp)
    ensures
        ({
            let bytes = input_bytes(op);
            let sent = bytes[0] + 256 * bytes[1] + 0x10000 * bytes[2] + 0x1000000 * bytes[3];
            match op {
                PortOp::Read { port } => bytes.len() == 4 && sent == port,
                PortOp::Write { port, value } => bytes.len() == 5 && sent == port && bytes[4]
                    == value,
            }
        }),
{
}

} // verus!
