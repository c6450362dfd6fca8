//! Getting hold of the kernel driver that gives access to the ports on Windows.
//!
//! The program carries the driver with it. Where its device is not there yet, it is written to a
//! temporary file and started as a service, which takes administrator rights. A program without
//! them starts itself once more, with them, only to do that.
use vstd::prelude::*;

use crate::session::{asking, converse, ran, requests, Dialogue, Session};

verus! {

broadcast use crate::session::group_replay;

/// The driver's device.
pub const DEVICE: &'static str = "\\\\.\\WinRing0_1_2_0";

/// The name of the driver's service.
pub const SERVICE: &'static str = "WinRing0_1_2_0";

/// The name under which the service is shown.
pub const SERVICE_TITLE: &'static str = "WinRing0 1.2.0";

/// The option with which the program only installs the driver.
pub const INSTALL_FLAG: &'static str = "--install-driver";

/// A driver of fewer bytes than this is a placeholder.
pub const SMALLEST_DRIVER: usize = 10_000;

/// Environment variables that name the directory for temporary files.
#[derive(Clone, Copy, PartialEq, Eq, Structural, Debug)]
pub enum TempVariable {
    Temp,
    Tmp,
}

impl TempVariable {
    /// The variable's name.
    pub fn name(&self) -> (out: &'static str)
        ensures
            out@ == (match *self {
                TempVariable::Temp => "TEMP"@,
                TempVariable::Tmp => "TMP"@,
            }),
    {
        match self {
            TempVariable::Temp => "TEMP",
            TempVariable::Tmp => "TMP",
        }
    }
}

/// What is asked of the system.
#[derive(Clone, Debug)]
pub enum DriverRequest {
    /// Open the driver's device.
    OpenDevice,
    /// Look up an environment variable.
    Variable(TempVariable),
    /// Write the driver that the program carries to a file.
    WriteDriver { path: String },
    /// Open the service manager.
    OpenManager,
    /// Create the driver's service from a file.
    CreateService { path: String },
    /// Open the driver's service.
    OpenService,
    /// Start the driver's service.
    StartService,
    /// Close the driver's service.
    CloseService,
    /// Close the service manager.
    CloseManager,
    /// Wait for the device to appear.
    Wait,
    /// Find out whether the device is there.
    DeviceExists,
    /// Find out whether the program has administrator rights.
    IsElevated,
    /// Find the path of the program.
    ProgramPath,
}

/// The contents of a [`DriverRequest`].
#[verifier::ext_equal]
pub enum DriverRequestView {
    OpenDevice,
    Variable(TempVariable),
    WriteDriver { path: Seq<char> },
    OpenManager,
    CreateService { path: Seq<char> },
    OpenService,
    StartService,
    CloseService,
    CloseManager,
    Wait,
    DeviceExists,
    IsElevated,
    ProgramPath,
}

impl View for DriverRequest {
    type V = DriverRequestView;

    open spec fn view(&self) -> DriverRequestView {
        match *self {
            DriverRequest::OpenDevice => DriverRequestView::OpenDevice,
            DriverRequest::Variable(v) => DriverRequestView::Variable(v),
            DriverRequest::WriteDriver { path } => DriverRequestView::WriteDriver { path: path@ },
            DriverRequest::OpenManager => DriverRequestView::OpenManager,
            DriverRequest::CreateService { path } => DriverRequestView::CreateService {
                path: path@,
            },
            DriverRequest::OpenService => DriverRequestView::OpenService,
            DriverRequest::StartService => DriverRequestView::StartService,
            DriverRequest::CloseService => DriverRequestView::CloseService,
            DriverRequest::CloseManager => DriverRequestView::CloseManager,
            DriverRequest::Wait => DriverRequestView::Wait,
            DriverRequest::DeviceExists => DriverRequestView::DeviceExists,
            DriverRequest::IsElevated => DriverRequestView::IsElevated,
            DriverRequest::ProgramPath => DriverRequestView::ProgramPath,
        }
    }
}

/// What the system answers. A reply of another kind than the request calls for counts as a
/// failure.
#[derive(Clone, Debug)]
pub enum DriverReply {
    /// Whether it could be done, or is so.
    Done(bool),
    /// The text that was looked up, if there is one.
    Text(Option<String>),
}

/// The replies of the system.
pub type DriverSession = Session<DriverReply>;

/// A conversation with the system.
pub type DriverTalk<T> = Dialogue<DriverRequestView, DriverReply, T>;

/// What the program does about the driver when it starts.
#[derive(Clone, Debug)]
pub enum DriverPlan {
    /// Install the driver and end.
    InstallAndExit,
    /// Go on: the driver is there, can be installed on the way, or cannot be had.
    Continue,
    /// Start the program at this path once more, with administrator rights and the option
    /// [`INSTALL_FLAG`], and go on.
    Relaunch { exe: String },
}

/// The contents of a [`DriverPlan`].
#[verifier::ext_equal]
pub enum PlanView {
    InstallAndExit,
    Continue,
    Relaunch { exe: Seq<char> },
}

impl View for DriverPlan {
    type V = PlanView;

    open spec fn view(&self) -> PlanView {
        match *self {
            DriverPlan::InstallAndExit => PlanView::InstallAndExit,
            DriverPlan::Continue => PlanView::Continue,
            DriverPlan::Relaunch { exe } => PlanView::Relaunch { exe: exe@ },
        }
    }
}

/// A value, or the contents of the request that is to be performed next.
pub open spec fn viewed<T>(out: Result<T, DriverRequest>) -> Result<T, DriverRequestView> {
    match out {
        Ok(value) => Ok(value),
        Err(request) => Err(request@),
    }
}

/// Whether a reply says that it could be done, or is so.
pub open spec fn is_done(reply: DriverReply) -> bool {
    reply == DriverReply::Done(true)
}

/// The text that a reply carries.
pub open spec fn text_of(reply: DriverReply) -> Option<Seq<char>> {
    match reply {
        DriverReply::Text(Some(text)) => Some(text@),
        _ => None,
    }
}

/// Makes a request; ends with whether it could be done, or is so.
pub open spec fn trying(request: DriverRequestView) -> DriverTalk<bool> {
    asking(request).bind(|reply: DriverReply| Dialogue::End(is_done(reply)))
}

/// Finds the directory for temporary files.
pub open spec fn finding_temp() -> DriverTalk<Seq<char>> {
    asking(DriverRequestView::Variable(TempVariable::Temp)).bind(
        |reply: DriverReply|
            match text_of(reply) {
                Some(dir) => Dialogue::End(dir),
                None => asking(DriverRequestView::Variable(TempVariable::Tmp)).bind(
                    |reply: DriverReply|
                        match text_of(reply) {
                            Some(dir) => Dialogue::End(dir),
                            None => Dialogue::End("C:\\Windows\\Temp"@),
                        },
                ),
            },
    )
}

/// The file that the driver is written to.
pub open spec fn driver_path(dir: Seq<char>) -> Seq<char> {
    dir + "\\WinRing0x64.sys"@
}

/// Starts the driver's service and closes what it opened. Whether the service could be created
/// or started makes no difference: it may be there already.
pub open spec fn starting_service(path: Seq<char>) -> DriverTalk<()> {
    asking(DriverRequestView::CreateService { path }).followed_by(
        trying(DriverRequestView::OpenService).bind(
            |open: bool|
                if open {
                    asking(DriverRequestView::StartService).followed_by(
                        asking(DriverRequestView::CloseService).followed_by(Dialogue::End(())),
                    )
                } else {
                    Dialogue::End(())
                },
        ),
    ).followed_by(asking(DriverRequestView::CloseManager).followed_by(Dialogue::End(())))
}

/// Installs the driver of `size` bytes that the program carries and opens its device; ends with
/// whether it is open. A placeholder is not installed.
pub open spec fn installing(size: usize) -> DriverTalk<bool> {
    if size < SMALLEST_DRIVER {
        Dialogue::End(false)
    } else {
        finding_temp().bind(
            |dir: Seq<char>|
                trying(DriverRequestView::WriteDriver { path: driver_path(dir) }).bind(
                    |written: bool|
                        if !written {
                            Dialogue::End(false)
                        } else {
                            trying(DriverRequestView::OpenManager).bind(
                                |manager: bool|
                                    if !manager {
                                        Dialogue::End(false)
                                    } else {
                                        starting_service(driver_path(dir)).followed_by(
                                            asking(DriverRequestView::Wait).followed_by(
                                                trying(DriverRequestView::OpenDevice),
                                            ),
                                        )
                                    },
                            )
                        },
                ),
        )
    }
}

/// Opens the driver's device, installing the driver if it is not there.
pub open spec fn opening(size: usize) -> DriverTalk<bool> {
    trying(DriverRequestView::OpenDevice).bind(
        |open: bool|
            if open {
                Dialogue::End(true)
            } else {
                installing(size)
            },
    )
}

/// Decides what to do about the driver when the program starts.
pub open spec fn planning(install_flag: bool) -> DriverTalk<PlanView> {
    if install_flag {
        Dialogue::End(PlanView::InstallAndExit)
    } else {
        trying(DriverRequestView::DeviceExists).bind(
            |exists: bool|
                if exists {
                    Dialogue::End(PlanView::Continue)
                } else {
                    trying(DriverRequestView::IsElevated).bind(
                        |elevated: bool|
                            if elevated {
                                Dialogue::End(PlanView::Continue)
                            } else {
                                asking(DriverRequestView::ProgramPath).bind(
                                    |reply: DriverReply|
                                        match text_of(reply) {
                                            Some(exe) => Dialogue::End(PlanView::Relaunch { exe }),
                                            None => Dialogue::End(PlanView::Continue),
                                        },
                                )
                            },
                    )
                },
        )
    }
}

/// A system on which the driver may be installed.
pub struct SystemModel {
    /// Whether the driver's device is there.
    pub device: bool,
    /// Whether files can be written.
    pub writable: bool,
    /// Whether the program may use the service manager.
    pub privileged: bool,
    /// Whether the driver's service exists.
    pub service: bool,
    /// How many times the service manager is open.
    pub managers: int,
    /// How many times the service is open.
    pub services: int,
}

/// How a system reacts to a request.
pub open spec fn system() -> spec_fn(SystemModel, DriverRequestView) -> (SystemModel, DriverReply) {
    |m: SystemModel, request: DriverRequestView|
        match request {
            DriverRequestView::OpenDevice => (m, DriverReply::Done(m.device)),
            DriverRequestView::WriteDriver { .. } => (m, DriverReply::Done(m.writable)),
            DriverRequestView::OpenManager => if m.privileged {
                (SystemModel { managers: m.managers + 1, ..m }, DriverReply::Done(true))
            } else {
                (m, DriverReply::Done(false))
            },
            DriverRequestView::CreateService { .. } => (
                SystemModel { service: true, ..m },
                DriverReply::Done(!m.service),
            ),
            DriverRequestView::OpenService => if m.service {
                (SystemModel { services: m.services + 1, ..m }, DriverReply::Done(true))
            } else {
                (m, DriverReply::Done(false))
            },
            DriverRequestView::StartService => (
                SystemModel { device: true, ..m },
                DriverReply::Done(!m.device),
            ),
            DriverRequestView::CloseService => (
                SystemModel { services: m.services - 1, ..m },
                DriverReply::Done(true),
            ),
            DriverRequestView::CloseManager => (
                SystemModel { managers: m.managers - 1, ..m },
                DriverReply::Done(true),
            ),
            _ => (m, DriverReply::Text(None)),
        }
}

/// The device is opened where it is there, and where a driver that is no placeholder can be
/// written and installed. Whatever was opened on the way is closed again.
pub proof fn lemma_opened(m: SystemModel, size: usize)
    ensures
        ({
            let (after, open) = converse(opening(size), m, system());
            &&& open == (m.device || (size >= SMALLEST_DRIVER && m.writable && m.privileged))
            &&& open == after.device
            &&& after.managers == m.managers
            &&& after.services == m.services
        }),
{
    broadcast use crate::session::group_converse;

}

/// A placeholder is never installed: the device is tried, and nothing else is done.
pub proof fn lemma_placeholder_is_not_installed(size: usize, replies: Seq<DriverReply>)
    requires
        size < 10_000,
    ensures
        requests(opening(size), replies) == seq![DriverRequestView::OpenDevice],
{
    broadcast use crate::session::group_requests;

    assert(requests(opening(size), replies) =~= seq![DriverRequestView::OpenDevice]);
}

impl Session<DriverReply> {
    fn request(&mut self, request: DriverRequest) -> (out: Result<DriverReply, DriverRequest>)
        ensures
            ran(asking(request@), old(self).remaining(), final(self).remaining(), viewed(out)),
    {
        self.ask(request)
    }

    fn attempt(&mut self, request: DriverRequest) -> (out: Result<bool, DriverRequest>)
        ensures
            ran(trying(request@), old(self).remaining(), final(self).remaining(), viewed(out)),
    {
        match self.request(request)? {
            DriverReply::Done(done) => Ok(done),
            _ => Ok(false),
        }
    }
}

/// A text as its characters, or the contents of the request that is to be performed next.
pub open spec fn viewed_text(out: Result<String, DriverRequest>) -> Result<
    Seq<char>,
    DriverRequestView,
> {
    match out {
        Ok(text) => Ok(text@),
        Err(request) => Err(request@),
    }
}

fn find_temp(r: &mut DriverSession) -> (out: Result<String, DriverRequest>)
    ensures
        ran(finding_temp(), old(r).remaining(), final(r).remaining(), viewed_text(out)),
{
    if let DriverReply::Text(Some(dir)) = r.request(DriverRequest::Variable(TempVariable::Temp))? {
        return Ok(dir);
    }
    if let DriverReply::Text(Some(dir)) = r.request(DriverRequest::Variable(TempVariable::Tmp))? {
        return Ok(dir);
    }
    Ok("C:\\Windows\\Temp".to_owned())
}

fn start_service(r: &mut DriverSession, path: &String) -> (out: Result<(), DriverRequest>)
    ensures
        ran(starting_service(path@), old(r).remaining(), final(r).remaining(), viewed(out)),
{
    r.request(DriverRequest::CreateService { path: path.clone() })?;
    if r.attempt(DriverRequest::OpenService)? {
        r.request(DriverRequest::StartService)?;
        r.request(DriverRequest::CloseService)?;
    }
    r.request(DriverRequest::CloseManager)?;
    Ok(())
}

/// Installs the driver of `size` bytes that the program carries, and opens its device. Returns
/// whether it is open.
pub fn install_and_open(r: &mut DriverSession, size: usize) -> (out: Result<bool, DriverRequest>)
    ensures
        ran(installing(size), old(r).remaining(), final(r).remaining(), viewed(out)),
{
    if size < SMALLEST_DRIVER {
        return Ok(false);
    }
    let mut path = find_temp(r)?;
    path.append("\\WinRing0x64.sys");
    if !r.attempt(DriverRequest::WriteDriver { path: path.clone() })? {
        return Ok(false);
    }
    if !r.attempt(DriverRequest::OpenManager)? {
        return Ok(false);
    }
    start_service(r, &path)?;
    r.request(DriverRequest::Wait)?;
    r.attempt(DriverRequest::OpenDevice)
}

/// Opens the driver's device, installing the driver of `size` bytes that the program carries if
/// the device is not there. Returns whether it is open.
pub fn open(r: &mut DriverSession, size: usize) -> (out: Result<bool, DriverRequest>)
    ensures
        ran(opening(size), old(r).remaining(), final(r).remaining(), viewed(out)),
{
    if r.attempt(DriverRequest::OpenDevice)? {
        return Ok(true);
    }
    install_and_open(r, size)
}

/// Decides what to do about the driver when the program starts; `install_flag` tells whether
/// the option [`INSTALL_FLAG`] was given.
pub fn maybe_install_driver(r: &mut DriverSession, install_flag: bool) -> (out: Result<
    DriverPlan,
    DriverRequest,
>)
    ensures
        ran(
            planning(install_flag),
            old(r).remaining(),
            final(r).remaining(),
            match out {
                Ok(plan) => Ok(plan@),
                Err(request) => Err(request@),
            },
        ),
{
    if install_flag {
        return Ok(DriverPlan::InstallAndExit);
    }
    if r.attempt(DriverRequest::DeviceExists)? {
        return Ok(DriverPlan::Continue);
    }
    if r.attempt(DriverRequest::IsElevated)? {
        return Ok(DriverPlan::Continue);
    }
    match r.request(DriverRequest::ProgramPath)? {
        DriverReply::Text(Some(exe)) => Ok(DriverPlan::Relaunch { exe }),
        _ => Ok(DriverPlan::Continue),
    }
}

/// A system on which the driver's device appears some time after its service was started.
pub struct InstallModel {
    pub device: bool,
    pub writable: bool,
    pub privileged: bool,
    pub temp: Option<String>,
    pub tmp: Option<String>,
    /// The file that the driver was written to, and the one that the service is created from.
    pub written: Option<Seq<char>>,
    pub created: Option<Seq<char>>,
    /// Whether the service manager and the service are open, and the service was started.
    pub manager: bool,
    pub service: bool,
    pub started: bool,
}

/// How such a system reacts to a request.
pub open spec fn install() -> spec_fn(InstallModel, DriverRequestView) -> (
    InstallModel,
    DriverReply,
) {
    |m: InstallModel, request: DriverRequestView|
        match request {
            DriverRequestView::OpenDevice => (m, DriverReply::Done(m.device)),
            DriverRequestView::Variable(TempVariable::Temp) => (m, DriverReply::Text(m.temp)),
            DriverRequestView::Variable(TempVariable::Tmp) => (m, DriverReply::Text(m.tmp)),
            DriverRequestView::WriteDriver { path } => if m.writable {
                (InstallModel { written: Some(path), ..m }, DriverReply::Done(true))
            } else {
                (m, DriverReply::Done(false))
            },
            DriverRequestView::OpenManager => if m.privileged {
                (InstallModel { manager: true, ..m }, DriverReply::Done(true))
            } else {
                (m, DriverReply::Done(false))
            },
            DriverRequestView::CreateService { path } => if m.manager && m.written == Some(path) {
                (InstallModel { created: Some(path), ..m }, DriverReply::Done(true))
            } else {
                (m, DriverReply::Done(false))
            },
            DriverRequestView::OpenService => if m.manager && m.created is Some {
                (InstallModel { service: true, ..m }, DriverReply::Done(true))
            } else {
                (m, DriverReply::Done(false))
            },
            DriverRequestView::StartService => if m.service {
                (InstallModel { started: true, ..m }, DriverReply::Done(true))
            } else {
                (m, DriverReply::Done(false))
            },
            DriverRequestView::CloseService => (
                InstallModel { service: false, ..m },
                DriverReply::Done(true),
            ),
            DriverRequestView::CloseManager => (
                InstallModel { manager: false, ..m },
                DriverReply::Done(true),
            ),
            DriverRequestView::Wait => (
                InstallModel { device: m.device || m.started, ..m },
                DriverReply::Done(true),
            ),
            _ => (m, DriverReply::Text(None)),
        }
}

/// The directory for temporary files: that of `TEMP`, else that of `TMP`, else the system's.
pub open spec fn temp_of(m: InstallModel) -> Seq<char> {
    if m.temp is Some {
        m.temp->0@
    } else if m.tmp is Some {
        m.tmp->0@
    } else {
        "C:\\Windows\\Temp"@
    }
}

/// A driver that is no placeholder is written to the directory for temporary files, its service
/// is created from there, started and closed again, and the device is opened once it has
/// appeared. Without the rights for it nothing but the file is left.
pub proof fn lemma_installed(m: InstallModel, size: usize)
    requires
        !m.device && !m.manager && !m.service && !m.started,
        m.written is None && m.created is None,
        size >= 10_000,
    ensures
        ({
            let (after, open) = converse(opening(size), m, install());
            let path = temp_of(m) + "\\WinRing0x64.sys"@;
            &&& open == (m.writable && m.privileged)
            &&& after.device == open
            &&& after.written == if m.writable {
                Some(path)
            } else {
                None
            }
            &&& after.created == if open {
                Some(path)
            } else {
                None
            }
            &&& !after.manager && !after.service
        }),
{
    broadcast use crate::session::group_converse;

}

/// What decides about the driver when the program starts.
pub struct StartModel {
    pub device: bool,
    pub elevated: bool,
    pub exe: Option<String>,
}

/// How such a system reacts to a request.
pub open spec fn start() -> spec_fn(StartModel, DriverRequestView) -> (StartModel, DriverReply) {
    |m: StartModel, request: DriverRequestView|
        match request {
            DriverRequestView::DeviceExists => (m, DriverReply::Done(m.device)),
            DriverRequestView::IsElevated => (m, DriverReply::Done(m.elevated)),
            DriverRequestView::ProgramPath => (m, DriverReply::Text(m.exe)),
            _ => (m, DriverReply::Done(false)),
        }
}

/// The program is started once more exactly if it was not started to install the driver, the
/// device is not there, it has no administrator rights, and its path is known; with the option to
/// install the driver it does that and ends.
pub proof fn lemma_planned(m: StartModel, install_flag: bool)
    ensures
        converse(planning(install_flag), m, start()).1 == (if install_flag {
            PlanView::InstallAndExit
        } else if !m.device && !m.elevated && m.exe is Some {
            PlanView::Relaunch { exe: m.exe->0@ }
        } else {
            PlanView::Continue
        }),
{
    broadcast use crate::session::group_converse;

}

} // verus!
