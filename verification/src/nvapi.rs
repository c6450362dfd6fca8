//! Fan control of NVIDIA graphics cards through the driver's private interface.
//!
//! The interface is a library that hands out functions by number. The fans of a card are set by
//! reading the card's cooler control block, changing it and writing it back.
use vstd::prelude::*;

use crate::session::{asking, ran, requests, Dialogue, Session};
use crate::text::{digits, push_number, push_signed, signed_digits};

verus! {

broadcast use crate::session::group_replay;

/// The file of the library.
pub const LIBRARY: &'static str = "nvapi64.dll";

/// The library's function that hands out the others.
pub const QUERY_FUNCTION: &'static str = "nvapi_QueryInterface";

/// The most graphics cards that the driver reports.
pub const MAX_PHYSICAL_GPUS: usize = 64;

/// The number of coolers that a control block has room for.
pub const MAX_COOLERS: usize = 32;

/// The size of a control block in bytes: eleven 32-bit words before the coolers, and eleven for
/// each cooler.
pub const CONTROL_SIZE: u32 = 1452;

/// The numbers of the functions that are used.
pub const ID_INITIALIZE: u32 = 0x0150_E828;

pub const ID_ENUM_PHYSICAL_GPUS: u32 = 0xE5AC_921F;

pub const ID_FAN_COOLERS_GET_CONTROL: u32 = 0x814B_209F;

pub const ID_FAN_COOLERS_SET_CONTROL: u32 = 0xA589_71A5;

/// The status of a call that succeeded.
pub const STATUS_OK: i32 = 0;

/// One cooler in a control block.
#[derive(Clone, Copy, PartialEq, Eq, Structural, Debug)]
pub struct NvFanCoolerControlItem {
    pub cooler_id: u32,
    /// Speed in percent.
    pub level: u32,
    /// 0 for automatic control, 1 for manual.
    pub control_mode: u32,
}

/// A control block, without its reserved words.
#[derive(Clone, Debug)]
pub struct NvFanCoolerControl {
    pub version: u32,
    /// How many of the coolers are there.
    pub count: u32,
    pub items: Vec<NvFanCoolerControlItem>,
}

/// The contents of a [`NvFanCoolerControl`].
#[verifier::ext_equal]
pub struct ControlView {
    pub version: u32,
    pub count: u32,
    pub items: Seq<NvFanCoolerControlItem>,
}

impl View for NvFanCoolerControl {
    type V = ControlView;

    open spec fn view(&self) -> ControlView {
        ControlView { version: self.version, count: self.count, items: self.items@ }
    }
}

/// What is asked of the driver.
#[derive(Clone, Debug)]
pub enum NvRequest {
    /// Load [`LIBRARY`].
    LoadLibrary,
    /// Find [`QUERY_FUNCTION`].
    FindQuery,
    /// Query the function of number `id`.
    QueryInterface { id: u32 },
    /// Initialise the interface.
    Initialize,
    /// List the graphics cards.
    EnumGpus,
    /// Fill the block `control` with the cooler control of card number `gpu`.
    GetControl { gpu: usize, control: NvFanCoolerControl },
    /// Take over the cooler control in the block `control` for card number `gpu`.
    SetControl { gpu: usize, control: NvFanCoolerControl },
}

/// The contents of a [`NvRequest`].
pub enum RequestView {
    LoadLibrary,
    FindQuery,
    QueryInterface { id: u32 },
    Initialize,
    EnumGpus,
    GetControl { gpu: usize, control: ControlView },
    SetControl { gpu: usize, control: ControlView },
}

impl View for NvRequest {
    type V = RequestView;

    open spec fn view(&self) -> RequestView {
        match *self {
            NvRequest::LoadLibrary => RequestView::LoadLibrary,
            NvRequest::FindQuery => RequestView::FindQuery,
            NvRequest::QueryInterface { id } => RequestView::QueryInterface { id },
            NvRequest::Initialize => RequestView::Initialize,
            NvRequest::EnumGpus => RequestView::EnumGpus,
            NvRequest::GetControl { gpu, control } => RequestView::GetControl {
                gpu,
                control: control@,
            },
            NvRequest::SetControl { gpu, control } => RequestView::SetControl {
                gpu,
                control: control@,
            },
        }
    }
}

/// What the driver answers. A reply of another kind than the request calls for counts as a
/// failure.
#[derive(Clone, Debug)]
pub enum NvReply {
    /// Whether what was loaded, looked up or queried is there.
    Present(bool),
    /// The status of a call.
    Status(i32),
    /// The status of listing the cards, and how many there are.
    Gpus { status: i32, count: u32 },
    /// The status of reading a control block, and the block.
    Control { status: i32, control: NvFanCoolerControl },
}

/// The replies of the driver.
pub type NvSession = Session<NvReply>;

/// A conversation with the driver.
pub type NvTalk<T> = Dialogue<RequestView, NvReply, T>;

/// Why the fans of a card cannot be set.
#[derive(Clone, Copy, PartialEq, Eq, Structural, Debug)]
pub enum NvError {
    /// There is no card of this number.
    NoSuchGpu { gpu: usize },
    /// The control block could not be read.
    GetFailed { status: i32 },
    /// The card has no coolers that can be controlled.
    NoCoolers,
    /// The control block was not taken over.
    SetFailed { status: i32 },
}

/// The driver's interface, ready for use.
pub struct NvApi {
    gpus: usize,
}

/// Whether a reply says that what was asked for is there.
pub open spec fn is_present(reply: NvReply) -> bool {
    reply == NvReply::Present(true)
}

/// The status that a reply carries; a reply of another kind counts as status -1.
pub open spec fn status_of(reply: NvReply) -> i32 {
    match reply {
        NvReply::Status(status) => status,
        _ => -1i32,
    }
}

/// Makes a request for something to be loaded, looked up or queried, and goes on with `next` if
/// it is there; ends with `None` if it is not.
pub open spec fn needing<T>(request: RequestView, next: NvTalk<Option<T>>) -> NvTalk<Option<T>> {
    asking(request).bind(
        |reply: NvReply|
            if is_present(reply) {
                next
            } else {
                Dialogue::End(None)
            },
    )
}

/// The number of cards to work with; `None` if there is none or they could not be listed.
pub open spec fn usable_gpus(reply: NvReply) -> Option<usize> {
    match reply {
        NvReply::Gpus { status, count } => if status != STATUS_OK || count == 0 {
            None
        } else if count > MAX_PHYSICAL_GPUS {
            Some(MAX_PHYSICAL_GPUS)
        } else {
            Some(count as usize)
        },
        _ => None,
    }
}

/// Loads and initialises the interface and counts the cards. Ends with `None` at the first step
/// that fails.
pub open spec fn opening() -> NvTalk<Option<usize>> {
    needing(
        RequestView::LoadLibrary,
        needing(
            RequestView::FindQuery,
            needing(
                RequestView::QueryInterface { id: ID_INITIALIZE },
                asking(RequestView::Initialize).bind(
                    |reply: NvReply|
                        if status_of(reply) != STATUS_OK {
                            Dialogue::End(None)
                        } else {
                            querying()
                        },
                ),
            ),
        ),
    )
}

/// Queries the functions that are needed after the initialisation and counts the cards.
pub open spec fn querying() -> NvTalk<Option<usize>> {
    needing(
        RequestView::QueryInterface { id: ID_ENUM_PHYSICAL_GPUS },
        needing(
            RequestView::QueryInterface { id: ID_FAN_COOLERS_GET_CONTROL },
            needing(
                RequestView::QueryInterface { id: ID_FAN_COOLERS_SET_CONTROL },
                asking(RequestView::EnumGpus).bind(
                    |reply: NvReply| Dialogue::End(usable_gpus(reply)),
                ),
            ),
        ),
    )
}

/// An empty control block, marked with its size and format version.
pub open spec fn empty_control() -> ControlView {
    ControlView {
        version: (CONTROL_SIZE + 0x10000) as u32,
        count: 0,
        items: Seq::new(
            MAX_COOLERS as nat,
            |i: int| NvFanCoolerControlItem { cooler_id: 0, level: 0, control_mode: 0 },
        ),
    }
}

/// A cooler at `level` percent, at most 100, in manual mode, or back in automatic mode.
pub open spec fn commanded(
    item: NvFanCoolerControlItem,
    level: Option<u8>,
) -> NvFanCoolerControlItem {
    match level {
        Some(pct) => NvFanCoolerControlItem {
            control_mode: 1,
            level: if pct > 100 {
                100
            } else {
                pct as u32
            },
            ..item
        },
        None => NvFanCoolerControlItem { control_mode: 0, level: 0, ..item },
    }
}

/// How many coolers of a block are there.
pub open spec fn coolers(control: ControlView) -> nat {
    let n = if control.count > MAX_COOLERS {
        MAX_COOLERS as nat
    } else {
        control.count as nat
    };
    if n > control.items.len() {
        control.items.len()
    } else {
        n
    }
}

/// A block with every cooler that is there set to `level`, and all else as it was.
pub open spec fn with_level(control: ControlView, level: Option<u8>) -> ControlView {
    ControlView {
        items: Seq::new(
            control.items.len(),
            |i: int|
                if i < coolers(control) {
                    commanded(control.items[i], level)
                } else {
                    control.items[i]
                },
        ),
        ..control
    }
}

/// Sets all coolers of a card, or hands them back. `gpus` is the number of cards.
pub open spec fn setting_fans(gpus: usize, gpu: usize, level: Option<u8>) -> NvTalk<
    Result<(), NvError>,
> {
    if gpu >= gpus {
        Dialogue::End(Err(NvError::NoSuchGpu { gpu }))
    } else {
        asking(RequestView::GetControl { gpu, control: empty_control() }).bind(
            |reply: NvReply|
                match reply {
                    NvReply::Control { status, control } => if status != STATUS_OK {
                        Dialogue::End(Err(NvError::GetFailed { status }))
                    } else if coolers(control@) == 0 {
                        Dialogue::End(Err(NvError::NoCoolers))
                    } else {
                        writing_back(gpu, with_level(control@, level))
                    },
                    _ => Dialogue::End(Err(NvError::GetFailed { status: -1i32 })),
                },
        )
    }
}

/// Writes a control block.
pub open spec fn writing_back(gpu: usize, control: ControlView) -> NvTalk<Result<(), NvError>> {
    asking(RequestView::SetControl { gpu, control }).bind(
        |reply: NvReply|
            Dialogue::End(
                if status_of(reply) == STATUS_OK {
                    Ok(())
                } else {
                    Err(NvError::SetFailed { status: status_of(reply) })
                },
            ),
    )
}

/// Setting the fans of a card changes the mode and the level of each cooler that is there, the
/// level to at most 100, and nothing else: the coolers keep their numbers and places, and the
/// block its format and count.
pub proof fn lemma_only_present_coolers(control: ControlView, level: Option<u8>, i: int)
    requires
        0 <= i < control.items.len(),
    ensures
        ({
            let (before, after) = (control.items[i], with_level(control, level).items[i]);
            &&& after.cooler_id == before.cooler_id
            &&& i >= coolers(control) ==> after == before
            &&& i < coolers(control) ==> match level {
                Some(pct) => after.control_mode == 1 && after.level <= 100 && (pct <= 100
                    ==> after.level == pct),
                None => after.control_mode == 0 && after.level == 0,
            }
        }),
        with_level(control, level).items.len() == control.items.len(),
        with_level(control, level).version == control.version,
        with_level(control, level).count == control.count,
{
}

/// Handing a card back after it was set leaves the same as handing it back at once.
pub proof fn lemma_reset_after_set(control: ControlView, pct: u8)
    ensures
        with_level(with_level(control, Some(pct)), None) == with_level(control, None),
{
    assert(with_level(with_level(control, Some(pct)), None) =~= with_level(control, None));
}

/// A card is written at most once, and only with what was read from it before, changed as the
/// speed says.
pub proof fn lemma_writes_what_was_read(
    gpus: usize,
    gpu: usize,
    level: Option<u8>,
    replies: Seq<NvReply>,
    i: int,
)
    requires
        0 <= i < requests(setting_fans(gpus, gpu, level), replies).len(),
    ensures
        requests(setting_fans(gpus, gpu, level), replies)[i] matches RequestView::SetControl {
            gpu: to,
            control: written,
        } ==> {
            &&& i == 1
            &&& to == gpu < gpus
            &&& replies[0] matches NvReply::Control { status, control } && status == STATUS_OK
                && written == with_level(control@, level)
        },
{
    broadcast use crate::session::group_requests;

}

/// A request as its contents, where there is one.
pub open spec fn viewed<T>(out: Result<T, NvRequest>) -> Result<T, RequestView> {
    match out {
        Ok(value) => Ok(value),
        Err(request) => Err(request@),
    }
}

impl Session<NvReply> {
    /// Makes one request of the driver.
    pub fn request(&mut self, request: NvRequest) -> (out: Result<NvReply, NvRequest>)
        ensures
            ran(asking(request@), old(self).remaining(), final(self).remaining(), viewed(out)),
    {
        self.ask(request)
    }

    /// Makes a request for something to be loaded, looked up or queried.
    fn request_present(&mut self, request: NvRequest) -> (out: Result<bool, NvRequest>)
        ensures
            ran(
                asking(request@).bind(|reply: NvReply| Dialogue::End(is_present(reply))),
                old(self).remaining(),
                final(self).remaining(),
                viewed(out),
            ),
    {
        match self.request(request)? {
            NvReply::Present(present) => Ok(present),
            _ => Ok(false),
        }
    }

    /// Makes a request that is answered with a status.
    fn request_status(&mut self, request: NvRequest) -> (out: Result<i32, NvRequest>)
        ensures
            ran(
                asking(request@).bind(|reply: NvReply| Dialogue::End(status_of(reply))),
                old(self).remaining(),
                final(self).remaining(),
                viewed(out),
            ),
    {
        match self.request(request)? {
            NvReply::Status(status) => Ok(status),
            _ => Ok(-1),
        }
    }
}

impl NvFanCoolerControl {
    /// An empty control block, marked with its size and format version.
    pub fn versioned() -> (out: Self)
        ensures
            out@ == empty_control(),
    {
        let mut items: Vec<NvFanCoolerControlItem> = Vec::new();
        let mut i: usize = 0;
        while i < MAX_COOLERS
            invariant
                i <= MAX_COOLERS,
                items@ == empty_control().items.take(i as int),
            decreases MAX_COOLERS - i,
        {
            items.push(NvFanCoolerControlItem { cooler_id: 0, level: 0, control_mode: 0 });
            i = i + 1;
            assert(items@ =~= empty_control().items.take(i as int));
        }
        assert(items@ =~= empty_control().items);
        NvFanCoolerControl { version: CONTROL_SIZE + 0x10000, count: 0, items }
    }

    fn present(&self) -> (n: usize)
        ensures
            n == coolers(self@),
    {
        let n: usize = if self.count > MAX_COOLERS as u32 {
            MAX_COOLERS
        } else {
            self.count as usize
        };
        if n > self.items.len() {
            self.items.len()
        } else {
            n
        }
    }

    /// Sets every cooler that is there to `level` percent in manual mode, or back to automatic
    /// mode.
    pub fn command(&mut self, level: Option<u8>)
        ensures
            final(self)@ == with_level(old(self)@, level),
    {
        let n: usize = self.present();
        let ghost before = self@;
        let mut i: usize = 0;
        while i < n
            invariant
                i <= n,
                n == coolers(before),
                n <= before.items.len(),
                self@.version == before.version,
                self@.count == before.count,
                self@.items.len() == before.items.len(),
                forall|j: int|
                    0 <= j < self@.items.len() ==> #[trigger] self@.items[j] == (if j < i {
                        commanded(before.items[j], level)
                    } else {
                        before.items[j]
                    }),
            decreases n - i,
        {
            let mut item = self.items[i];
            match level {
                Some(pct) => {
                    item.control_mode = 1;
                    item.level = if pct > 100 {
                        100
                    } else {
                        pct as u32
                    };
                },
                None => {
                    item.control_mode = 0;
                    item.level = 0;
                },
            }
            self.items.set(i, item);
            i = i + 1;
        }
        assert(self@ =~= with_level(before, level));
    }
}

impl NvError {
    /// The error in words, as characters.
    pub open spec fn words(self) -> Seq<char> {
        match self {
            NvError::NoSuchGpu { gpu } => "NVAPI: GPU index "@ + digits(gpu as nat)
                + " out of range"@,
            NvError::GetFailed { status } => "NVAPI ClientFanCoolersGetControl failed (status "@
                + signed_digits(status as int) + ")"@,
            NvError::NoCoolers => "NVAPI reported no controllable GPU fan coolers"@,
            NvError::SetFailed { status } => "NVAPI ClientFanCoolersSetControl failed (status "@
                + signed_digits(status as int) + ")"@,
        }
    }

    /// The error in words.
    pub fn message(&self) -> (out: String)
        ensures
            out@ == self.words(),
    {
        let mut out = String::new();
        match self {
            NvError::NoSuchGpu { gpu } => {
                out.append("NVAPI: GPU index ");
                push_number(&mut out, *gpu as u64);
                out.append(" out of range");
            },
            NvError::GetFailed { status } => {
                out.append("NVAPI ClientFanCoolersGetControl failed (status ");
                push_signed(&mut out, *status);
                out.append(")");
            },
            NvError::NoCoolers => {
                out.append("NVAPI reported no controllable GPU fan coolers");
            },
            NvError::SetFailed { status } => {
                out.append("NVAPI ClientFanCoolersSetControl failed (status ");
                push_signed(&mut out, *status);
                out.append(")");
            },
        }
        assert(out@ =~= self.words());
        out
    }
}

impl NvApi {
    /// The number of cards.
    pub closed spec fn gpu_count(&self) -> usize {
        self.gpus
    }

    /// Loads and initialises the interface; `None` if any step fails or there is no card.
    pub fn new(r: &mut NvSession) -> (out: Result<Option<Self>, NvRequest>)
        ensures
            ran(
                opening(),
                old(r).remaining(),
                final(r).remaining(),
                match out {
                    Ok(Some(api)) => Ok(Some(api.gpu_count())),
                    Ok(None) => Ok(None),
                    Err(request) => Err(request@),
                },
            ),
    {
        if !r.request_present(NvRequest::LoadLibrary)? {
            return Ok(None);
        }
        if !r.request_present(NvRequest::FindQuery)? {
            return Ok(None);
        }
        if !r.request_present(NvRequest::QueryInterface { id: ID_INITIALIZE })? {
            return Ok(None);
        }
        if r.request_status(NvRequest::Initialize)? != STATUS_OK {
            return Ok(None);
        }
        if !r.request_present(NvRequest::QueryInterface { id: ID_ENUM_PHYSICAL_GPUS })? {
            return Ok(None);
        }
        if !r.request_present(NvRequest::QueryInterface { id: ID_FAN_COOLERS_GET_CONTROL })? {
            return Ok(None);
        }
        if !r.request_present(NvRequest::QueryInterface { id: ID_FAN_COOLERS_SET_CONTROL })? {
            return Ok(None);
        }
        match r.request(NvRequest::EnumGpus)? {
            NvReply::Gpus { status, count } => {
                if status != STATUS_OK || count == 0 {
                    Ok(None)
                } else if count > MAX_PHYSICAL_GPUS as u32 {
                    Ok(Some(NvApi { gpus: MAX_PHYSICAL_GPUS }))
                } else {
                    Ok(Some(NvApi { gpus: count as usize }))
                }
            },
            _ => Ok(None),
        }
    }

    /// Sets every cooler of card number `gpu` to `level` percent in manual mode, or hands them
    /// back to the driver's automatic control where `level` is `None`.
    pub fn set_fans(&self, r: &mut NvSession, gpu: usize, level: Option<u8>) -> (out: Result<
        Result<(), NvError>,
        NvRequest,
    >)
        ensures
            ran(
                setting_fans(self.gpu_count(), gpu, level),
                old(r).remaining(),
                final(r).remaining(),
                viewed(out),
            ),
    {
        if gpu >= self.gpus {
            return Ok(Err(NvError::NoSuchGpu { gpu }));
        }
        let block = NvFanCoolerControl::versioned();
        let (status, mut control): (i32, NvFanCoolerControl) = match r.request(
            NvRequest::GetControl { gpu, control: block },
        )? {
            NvReply::Control { status, control } => (status, control),
            _ => return Ok(Err(NvError::GetFailed { status: -1 })),
        };
        if status != STATUS_OK {
            return Ok(Err(NvError::GetFailed { status }));
        }
        if control.present() == 0 {
            return Ok(Err(NvError::NoCoolers));
        }
        control.command(level);
        let status: i32 = r.request_status(NvRequest::SetControl { gpu, control })?;
        if status != STATUS_OK {
            return Ok(Err(NvError::SetFailed { status }));
        }
        Ok(Ok(()))
    }
}

} // verus!
