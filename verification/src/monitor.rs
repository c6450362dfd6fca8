//! Keeping the hardware monitor running whose service publishes the fans on Windows.
//!
//! The monitor is used from where it is installed, or downloaded to the program's own directory.
use vstd::prelude::*;

use crate::session::{asking, converse, ran, replay, requests, Dialogue, Outcome, Session};
use crate::text::{chars_of, contains, has_part, stands_at};

verus! {

broadcast use crate::session::group_replay;

/// Where the monitor may be.
#[derive(Clone, Copy, PartialEq, Eq, Structural, Debug)]
pub enum LhmPlace {
    /// The copy in the program's own directory.
    Bundled,
    /// Installed for all users.
    ProgramFiles,
    /// Installed for all users, as a 32-bit program.
    ProgramFilesX86,
    /// On the user's desktop.
    Desktop,
}

/// What is asked of the system.
#[derive(Clone, Copy, PartialEq, Eq, Structural, Debug)]
pub enum MonitorRequest {
    /// List the running monitors.
    ListTasks,
    /// Find out whether the monitor is at a place.
    Exists(LhmPlace),
    /// Run the script that downloads the monitor.
    Download,
    /// Start the monitor from a place, minimised.
    Launch(LhmPlace),
    /// Wait half a second and look for the monitor's window.
    LookForWindow,
    /// Hide the monitor's window.
    HideWindow,
}

/// What the system answers. A reply of another kind than the request calls for counts as a
/// failure.
#[derive(Clone, Debug)]
pub enum MonitorReply {
    /// What a command printed, if it could be run.
    Printed(Option<String>),
    /// Whether what was looked for is there.
    Found(bool),
    /// It was done.
    Done,
}

/// The replies of the system.
pub type MonitorSession = Session<MonitorReply>;

/// A conversation with the system.
pub type MonitorTalk<T> = Dialogue<MonitorRequest, MonitorReply, T>;

/// What became of the monitor.
#[derive(Clone, Copy, PartialEq, Eq, Structural, Debug)]
pub enum LhmOutcome {
    /// It was running.
    AlreadyRunning,
    /// It was started, and its window was hidden or did not appear.
    Started { place: LhmPlace, hidden: bool },
    /// It could be neither found nor downloaded.
    Unavailable,
}

/// How often the monitor's window is looked for.
pub const WINDOW_POLLS: usize = 30;

/// The download script, up to the directory that is made.
pub const SCRIPT_START: &'static str = "\n$ErrorActionPreference = 'Stop'\n$ProgressPreference = 'SilentlyContinue'\ntry {\n    New-Item -ItemType Directory -Force '";

/// Up to the directory of the archive.
pub const SCRIPT_SOURCE: &'static str = "' | Out-Null\n    $url = 'https://github.com/LibreHardwareMonitor/LibreHardwareMonitor/releases/download/v0.9.4/LibreHardwareMonitor-net472.zip'\n    $zip = '";

/// Up to the directory that the files are unpacked to.
pub const SCRIPT_UNPACK: &'static str = "\\lhm.zip'\n    Invoke-WebRequest -Uri $url -OutFile $zip -UseBasicParsing -TimeoutSec 90\n    Add-Type -AssemblyName System.IO.Compression.FileSystem\n    $z = [System.IO.Compression.ZipFile]::OpenRead($zip)\n    foreach ($entry in $z.Entries) {\n        if ($entry.Name -eq '') { continue }\n        $dest = '";

/// The rest of the script.
pub const SCRIPT_END: &'static str = "\\' + $entry.Name\n        [System.IO.Compression.ZipFileExtensions]::ExtractToFile($entry, $dest, $true)\n    }\n    $z.Dispose()\n    Remove-Item $zip -Force -ErrorAction SilentlyContinue\n    Write-Host 'OK'\n} catch { Write-Host \"FAIL: $_\" }\n";

/// The script that downloads the monitor to a directory.
pub open spec fn script_for(dir: Seq<char>) -> Seq<char> {
    SCRIPT_START@ + dir + SCRIPT_SOURCE@ + dir + SCRIPT_UNPACK@ + dir + SCRIPT_END@
}

/// The places where the monitor is looked for, in order.
pub open spec fn places() -> Seq<LhmPlace> {
    seq![LhmPlace::Bundled, LhmPlace::ProgramFiles, LhmPlace::ProgramFilesX86, LhmPlace::Desktop]
}

/// What a command printed; nothing if it could not be run.
pub open spec fn printed(reply: MonitorReply) -> Seq<char> {
    match reply {
        MonitorReply::Printed(Some(text)) => text@,
        _ => seq![],
    }
}

/// Looks for something; ends with whether it is there.
pub open spec fn looking(request: MonitorRequest) -> MonitorTalk<bool> {
    asking(request).bind(|reply: MonitorReply| Dialogue::End(reply == MonitorReply::Found(true)))
}

/// Looks for the monitor at the given places, up to the first where it is.
pub open spec fn finding_in(places: Seq<LhmPlace>) -> MonitorTalk<Option<LhmPlace>>
    decreases places.len(),
{
    if places.len() == 0 {
        Dialogue::End(None)
    } else {
        looking(MonitorRequest::Exists(places[0])).bind(
            |found: bool|
                if found {
                    Dialogue::End(Some(places[0]))
                } else {
                    finding_in(places.drop_first())
                },
        )
    }
}

/// Downloads the monitor, unless it is there. It must report success and be there afterwards.
pub open spec fn downloading() -> MonitorTalk<Option<LhmPlace>> {
    looking(MonitorRequest::Exists(LhmPlace::Bundled)).bind(
        |found: bool|
            if found {
                Dialogue::End(Some(LhmPlace::Bundled))
            } else {
                asking(MonitorRequest::Download).bind(
                    |reply: MonitorReply|
                        if has_part(printed(reply), "OK"@) {
                            looking(MonitorRequest::Exists(LhmPlace::Bundled)).bind(
                                |found: bool|
                                    Dialogue::End(
                                        if found {
                                            Some(LhmPlace::Bundled)
                                        } else {
                                            None
                                        },
                                    ),
                            )
                        } else {
                            Dialogue::End(None)
                        },
                )
            },
    )
}

/// Finds out whether the monitor is running.
pub open spec fn asking_running() -> MonitorTalk<bool> {
    asking(MonitorRequest::ListTasks).bind(
        |reply: MonitorReply| Dialogue::End(has_part(printed(reply), "LibreHardwareMonitor"@)),
    )
}

/// Starts the monitor from a place and hides its window; ends with whether that appeared.
pub open spec fn launching(place: LhmPlace) -> MonitorTalk<bool> {
    asking(MonitorRequest::Launch(place)).followed_by(hiding(WINDOW_POLLS as nat))
}

/// Starts the monitor from where it was found.
pub open spec fn starting(place: Option<LhmPlace>) -> MonitorTalk<LhmOutcome> {
    match place {
        Some(p) => launching(p).bind(
            |hidden: bool| Dialogue::End(LhmOutcome::Started { place: p, hidden }),
        ),
        None => Dialogue::End(LhmOutcome::Unavailable),
    }
}

/// Starts the monitor unless it is running, downloading it if it is nowhere.
pub open spec fn ensuring() -> MonitorTalk<LhmOutcome> {
    asking_running().bind(
        |running: bool|
            if running {
                Dialogue::End(LhmOutcome::AlreadyRunning)
            } else {
                finding_in(places()).bind(
                    |place: Option<LhmPlace>|
                        match place {
                            Some(p) => starting(place),
                            None => downloading().bind(|place: Option<LhmPlace>| starting(place)),
                        },
                )
            },
    )
}

/// Looks for the monitor's window up to `polls` times and hides it when it appears; ends with
/// whether it did.
pub open spec fn hiding(polls: nat) -> MonitorTalk<bool>
    decreases polls,
{
    if polls == 0 {
        Dialogue::End(false)
    } else {
        looking(MonitorRequest::LookForWindow).bind(
            |found: bool|
                if found {
                    asking(MonitorRequest::HideWindow).followed_by(Dialogue::End(true))
                } else {
                    hiding((polls - 1) as nat)
                },
        )
    }
}

/// While the monitor is running, nothing else is asked for.
pub proof fn lemma_running_is_left_alone(replies: Seq<MonitorReply>)
    requires
        replies.len() > 0,
        has_part(printed(replies[0]), "LibreHardwareMonitor"@),
    ensures
        requests(ensuring(), replies) == seq![MonitorRequest::ListTasks],
{
    broadcast use crate::session::group_requests;

    assert(requests(ensuring(), replies) =~= seq![MonitorRequest::ListTasks]);
}

/// What a system with the monitor at some places, or none, can do.
pub struct HostModel {
    pub running: bool,
    pub present: Set<LhmPlace>,
    /// Whether the download succeeds.
    pub online: bool,
    /// How often the monitor was downloaded.
    pub downloads: nat,
}

/// How such a system reacts to a request. A text that holds `line` lists a running monitor.
pub open spec fn host(line: String, ok: String) -> spec_fn(HostModel, MonitorRequest) -> (
    HostModel,
    MonitorReply,
) {
    |m: HostModel, request: MonitorRequest|
        match request {
            MonitorRequest::ListTasks => (
                m,
                MonitorReply::Printed(
                    if m.running {
                        Some(line)
                    } else {
                        None
                    },
                ),
            ),
            MonitorRequest::Exists(place) => (m, MonitorReply::Found(m.present.contains(place))),
            MonitorRequest::Download => if m.online {
                (
                    HostModel {
                        present: m.present.insert(LhmPlace::Bundled),
                        downloads: m.downloads + 1,
                        ..m
                    },
                    MonitorReply::Printed(Some(ok)),
                )
            } else {
                (HostModel { downloads: m.downloads + 1, ..m }, MonitorReply::Printed(None))
            },
            MonitorRequest::Launch(place) => (
                HostModel { running: m.running || m.present.contains(place), ..m },
                MonitorReply::Done,
            ),
            MonitorRequest::LookForWindow => (m, MonitorReply::Found(m.running)),
            MonitorRequest::HideWindow => (m, MonitorReply::Done),
        }
}

/// Afterwards the monitor is running wherever it was, could be found or could be downloaded, and
/// the window of one that was started is hidden. It is downloaded only where it is at none of the
/// places.
pub proof fn lemma_ensured(m: HostModel, line: String, ok: String)
    requires
        has_part(line@, "LibreHardwareMonitor"@),
        has_part(ok@, "OK"@),
    ensures
        ({
            let (after, outcome) = converse(ensuring(), m, host(line, ok));
            let found = exists|i: int|
                0 <= i < places().len() && m.present.contains(#[trigger] places()[i]);
            &&& after.running == (m.running || found || m.online)
            &&& after.running == !(outcome is Unavailable)
            &&& outcome matches LhmOutcome::Started { place, hidden } ==> hidden
                && after.present.contains(place)
            &&& after.downloads == m.downloads + if m.running || found {
                0int
            } else {
                1int
            }
        }),
{
    broadcast use crate::session::group_converse;

    reveal_with_fuel(finding_in, 5);
    reveal_strlit("LibreHardwareMonitor");
    reveal_strlit("OK");
    let all = places();
    assert(all.drop_first() =~= all.skip(1));
    assert(all.skip(1).drop_first() =~= all.skip(2));
    assert(all.skip(2).drop_first() =~= all.skip(3));
    assert(all.skip(3).drop_first() =~= all.skip(4));
    assert(!has_part(seq![], "LibreHardwareMonitor"@));
    assert(!has_part(seq![], "OK"@));
}

/// The contents of a list of texts.
pub open spec fn names(list: Seq<&'static str>) -> Seq<Seq<char>> {
    list.map_values(|s: &'static str| s@)
}

impl LhmPlace {
    /// The environment variable that names the directory of a place, and the directory where
    /// the variable is not set.
    pub fn directory(&self) -> (out: (&'static str, &'static str))
        ensures
            (out.0@, out.1@) == (match *self {
                LhmPlace::Bundled => ("APPDATA"@, "C:\\"@),
                LhmPlace::ProgramFiles => ("ProgramFiles"@, ""@),
                LhmPlace::ProgramFilesX86 => ("ProgramFiles(x86)"@, ""@),
                LhmPlace::Desktop => ("USERPROFILE"@, ""@),
            }),
    {
        match self {
            LhmPlace::Bundled => ("APPDATA", "C:\\"),
            LhmPlace::ProgramFiles => ("ProgramFiles", ""),
            LhmPlace::ProgramFilesX86 => ("ProgramFiles(x86)", ""),
            LhmPlace::Desktop => ("USERPROFILE", ""),
        }
    }

    /// The directories, and last the program, that lead from the directory of a place to the
    /// monitor.
    pub fn path(&self) -> (out: Vec<&'static str>)
        ensures
            names(out@) == (match *self {
                LhmPlace::Bundled => seq!["FanController"@, "lhm"@, "LibreHardwareMonitor.exe"@],
                LhmPlace::ProgramFiles | LhmPlace::ProgramFilesX86 => seq![
                    "LibreHardwareMonitor"@,
                    "LibreHardwareMonitor.exe"@,
                ],
                LhmPlace::Desktop => seq!["Desktop"@, "LibreHardwareMonitor.exe"@],
            }),
    {
        let mut out: Vec<&'static str> = Vec::new();
        match self {
            LhmPlace::Bundled => {
                out.push("FanController");
                out.push("lhm");
            },
            LhmPlace::ProgramFiles | LhmPlace::ProgramFilesX86 => {
                out.push("LibreHardwareMonitor");
            },
            LhmPlace::Desktop => {
                out.push("Desktop");
            },
        }
        out.push("LibreHardwareMonitor.exe");
        assert(names(out@) =~= match *self {
            LhmPlace::Bundled => seq!["FanController"@, "lhm"@, "LibreHardwareMonitor.exe"@],
            LhmPlace::ProgramFiles | LhmPlace::ProgramFilesX86 => seq![
                "LibreHardwareMonitor"@,
                "LibreHardwareMonitor.exe"@,
            ],
            LhmPlace::Desktop => seq!["Desktop"@, "LibreHardwareMonitor.exe"@],
        });
        out
    }
}

/// The script that downloads the monitor to a directory.
pub fn download_script(dir: &str) -> (out: String)
    ensures
        out@ == script_for(dir@),
{
    let mut out = SCRIPT_START.to_owned();
    out.append(dir);
    out.append(SCRIPT_SOURCE);
    out.append(dir);
    out.append(SCRIPT_UNPACK);
    out.append(dir);
    out.append(SCRIPT_END);
    out
}

impl Session<MonitorReply> {
    fn look(&mut self, request: MonitorRequest) -> (out: Result<bool, MonitorRequest>)
        ensures
            ran(looking(request), old(self).remaining(), final(self).remaining(), out),
    {
        match self.ask(request)? {
            MonitorReply::Found(found) => Ok(found),
            _ => Ok(false),
        }
    }

    /// Runs a command; returns whether it printed `part`.
    fn prints(&mut self, request: MonitorRequest, part: &str) -> (out: Result<
        bool,
        MonitorRequest,
    >)
        requires
            part@.len() > 0,
        ensures
            ran(
                asking(request).bind(
                    |reply: MonitorReply| Dialogue::End(has_part(printed(reply), part@)),
                ),
                old(self).remaining(),
                final(self).remaining(),
                out,
            ),
    {
        match self.ask(request)? {
            MonitorReply::Printed(Some(text)) => Ok(contains(&chars_of(&text), &chars_of(part))),
            _ => Ok(false),
        }
    }
}

/// Whether the monitor is running.
pub fn lhm_is_running(r: &mut MonitorSession) -> (out: Result<bool, MonitorRequest>)
    ensures
        ran(asking_running(), old(r).remaining(), final(r).remaining(), out),
{
    proof {
        reveal_strlit("LibreHardwareMonitor");
    }
    r.prints(MonitorRequest::ListTasks, "LibreHardwareMonitor")
}

/// The first place where the monitor is.
pub fn find_lhm_exe(r: &mut MonitorSession) -> (out: Result<Option<LhmPlace>, MonitorRequest>)
    ensures
        ran(finding_in(places()), old(r).remaining(), final(r).remaining(), out),
{
    let all = [
        LhmPlace::Bundled,
        LhmPlace::ProgramFiles,
        LhmPlace::ProgramFilesX86,
        LhmPlace::Desktop,
    ];
    assert(all@ =~= places());
    assert(places().skip(0) =~= places());
    let mut i: usize = 0;
    while i < 4
        invariant
            i <= 4,
            all@ == places(),
            replay(finding_in(places()), old(r).remaining()) == replay(
                finding_in(places().skip(i as int)),
                r.remaining(),
            ),
        decreases 4 - i,
    {
        assert(places().skip(i as int).drop_first() =~= places().skip(i + 1));
        if r.look(MonitorRequest::Exists(all[i]))? {
            return Ok(Some(all[i]));
        }
        i = i + 1;
    }
    Ok(None)
}

/// Downloads the monitor, unless it is there; returns where it is.
pub fn download_lhm(r: &mut MonitorSession) -> (out: Result<Option<LhmPlace>, MonitorRequest>)
    ensures
        ran(downloading(), old(r).remaining(), final(r).remaining(), out),
{
    if r.look(MonitorRequest::Exists(LhmPlace::Bundled))? {
        return Ok(Some(LhmPlace::Bundled));
    }
    proof {
        reveal_strlit("OK");
    }
    if r.prints(MonitorRequest::Download, "OK")? {
        if r.look(MonitorRequest::Exists(LhmPlace::Bundled))? {
            return Ok(Some(LhmPlace::Bundled));
        }
    }
    Ok(None)
}

/// Starts the monitor from a place and hides its window when it appears; returns whether it did.
pub fn launch_lhm(r: &mut MonitorSession, place: LhmPlace) -> (out: Result<bool, MonitorRequest>)
    ensures
        ran(launching(place), old(r).remaining(), final(r).remaining(), out),
{
    r.ask(MonitorRequest::Launch(place))?;
    hide_window(r)
}

/// Starts the monitor unless it is running, downloading it if it is nowhere.
pub fn ensure_lhm_running(r: &mut MonitorSession) -> (out: Result<LhmOutcome, MonitorRequest>)
    ensures
        ran(ensuring(), old(r).remaining(), final(r).remaining(), out),
{
    if lhm_is_running(r)? {
        return Ok(LhmOutcome::AlreadyRunning);
    }
    let place = match find_lhm_exe(r)? {
        Some(place) => Some(place),
        None => download_lhm(r)?,
    };
    match place {
        Some(place) => {
            let hidden = launch_lhm(r, place)?;
            Ok(LhmOutcome::Started { place, hidden })
        },
        None => Ok(LhmOutcome::Unavailable),
    }
}

/// Hides the monitor's window when it appears; returns whether it did.
pub fn hide_window(r: &mut MonitorSession) -> (out: Result<bool, MonitorRequest>)
    ensures
        ran(hiding(WINDOW_POLLS as nat), old(r).remaining(), final(r).remaining(), out),
{
    let mut polls: usize = WINDOW_POLLS;
    while polls > 0
        invariant
            replay(hiding(WINDOW_POLLS as nat), old(r).remaining()) == replay(
                hiding(polls as nat),
                r.remaining(),
            ),
        decreases polls,
    {
        if r.look(MonitorRequest::LookForWindow)? {
            r.ask(MonitorRequest::HideWindow)?;
            return Ok(true);
        }
        polls = polls - 1;
    }
    Ok(false)
}

/// The monitor is started from the first place where it is: the program's own directory, the two
/// directories of installed programs, and the desktop. Where it is at none of them it is started
/// from the program's own directory if it can be downloaded.
pub proof fn lemma_first_place(m: HostModel, line: String, ok: String)
    requires
        !m.running,
        has_part(ok@, "OK"@),
    ensures
        converse(ensuring(), m, host(line, ok)).1 == (if m.present.contains(LhmPlace::Bundled) {
            LhmOutcome::Started { place: LhmPlace::Bundled, hidden: true }
        } else if m.present.contains(LhmPlace::ProgramFiles) {
            LhmOutcome::Started { place: LhmPlace::ProgramFiles, hidden: true }
        } else if m.present.contains(LhmPlace::ProgramFilesX86) {
            LhmOutcome::Started { place: LhmPlace::ProgramFilesX86, hidden: true }
        } else if m.present.contains(LhmPlace::Desktop) {
            LhmOutcome::Started { place: LhmPlace::Desktop, hidden: true }
        } else if m.online {
            LhmOutcome::Started { place: LhmPlace::Bundled, hidden: true }
        } else {
            LhmOutcome::Unavailable
        }),
{
    broadcast use crate::session::group_converse;

    reveal_with_fuel(finding_in, 5);
    reveal_strlit("LibreHardwareMonitor");
    reveal_strlit("OK");
    let all = places();
    assert(all.drop_first() =~= all.skip(1));
    assert(all.skip(1).drop_first() =~= all.skip(2));
    assert(all.skip(2).drop_first() =~= all.skip(3));
    assert(all.skip(3).drop_first() =~= all.skip(4));
    assert(!has_part(seq![], "LibreHardwareMonitor"@));
    assert(!has_part(seq![], "OK"@));
}

/// A window that does not appear is looked for thirty times, and nothing is hidden; one that
/// appears before is hidden at once, and not looked for again.
pub proof fn lemma_window_is_hidden(misses: nat)
    ensures
        misses < 30 ==> requests(
            hiding(WINDOW_POLLS as nat),
            missed(misses).push(MonitorReply::Found(true)).push(MonitorReply::Done),
        ) == looks(misses + 1).push(MonitorRequest::HideWindow),
        misses >= 30 ==> requests(hiding(WINDOW_POLLS as nat), missed(misses)) == looks(30),
{
    lemma_polled(30, misses);
}

/// Replies to looks at which no window was there.
pub open spec fn missed(n: nat) -> Seq<MonitorReply> {
    Seq::new(n, |i: int| MonitorReply::Found(false))
}

/// So many looks.
pub open spec fn looks(n: nat) -> Seq<MonitorRequest> {
    Seq::new(n, |i: int| MonitorRequest::LookForWindow)
}

proof fn lemma_polled(polls: nat, misses: nat)
    ensures
        misses < polls ==> requests(
            hiding(polls),
            missed(misses).push(MonitorReply::Found(true)).push(MonitorReply::Done),
        ) == looks(misses + 1).push(MonitorRequest::HideWindow),
        misses >= polls ==> requests(hiding(polls), missed(misses)) == looks(polls),
    decreases polls,
{
    broadcast use crate::session::group_requests;

    if polls == 0 {
        assert(looks(0) =~= seq![]);
    } else if misses > 0 {
        let fewer = (misses - 1) as nat;
        lemma_polled((polls - 1) as nat, fewer);
        let found = missed(misses).push(MonitorReply::Found(true)).push(MonitorReply::Done);
        let rest = missed(fewer).push(MonitorReply::Found(true)).push(MonitorReply::Done);
        assert(found.drop_first() =~= rest);
        assert(missed(misses).drop_first() =~= missed(fewer));
        assert(looks(misses + 1).push(MonitorRequest::HideWindow) =~= seq![
            MonitorRequest::LookForWindow,
        ] + looks(misses).push(MonitorRequest::HideWindow));
        assert(looks(polls) =~= seq![MonitorRequest::LookForWindow] + looks((polls - 1) as nat));
    } else {
        let found = missed(0).push(MonitorReply::Found(true)).push(MonitorReply::Done);
        assert(found.drop_first() =~= seq![MonitorReply::Done]);
        assert(looks(1).push(MonitorRequest::HideWindow) =~= seq![
            MonitorRequest::LookForWindow,
            MonitorRequest::HideWindow,
        ]);
        assert(requests(hiding(polls), found) =~= looks(1).push(MonitorRequest::HideWindow));
    }
}

/// Whether a word stands somewhere in a text.
pub open spec fn holds_word(text: Seq<char>, word: Seq<char>) -> bool {
    exists|at: int|
        0 <= at <= text.len() - word.len() && #[trigger] text.subrange(at, at + word.len()) == word
}

proof fn lemma_holds_word(text: Seq<char>, word: Seq<char>)
    ensures
        has_part(text, word) == holds_word(text, word),
{
    if has_part(text, word) {
        let at = choose|at: int| stands_at(text, at, word);
        assert(text.subrange(at, at + word.len()) == word);
    }
    if holds_word(text, word) {
        let at = choose|at: int|
            0 <= at <= text.len() - word.len() && #[trigger] text.subrange(at, at + word.len())
                == word;
        assert(stands_at(text, at, word));
    }
}

/// The monitor is taken to run exactly if the list of tasks could be had and holds its name.
pub proof fn lemma_running_is_read_off_the_list(list: Option<String>)
    ensures
        replay(asking_running(), seq![MonitorReply::Printed(list)]) matches Outcome::Finished {
            value,
            ..
        } && value == (match list {
            Some(text) => holds_word(text@, "LibreHardwareMonitor"@),
            None => false,
        }),
{
    broadcast use crate::session::group_replay;

    reveal_strlit("LibreHardwareMonitor");
    assert(!has_part(seq![], "LibreHardwareMonitor"@));
    if let Some(text) = list {
        lemma_holds_word(text@, "LibreHardwareMonitor"@);
    }
}

/// A monitor that is in the program's own directory is not downloaded; one that is not is taken
/// for downloaded exactly if the script printed `OK` and the monitor is there afterwards.
pub proof fn lemma_download_has_to_succeed(text: Option<String>, there: bool)
    ensures
        ({
            let before = seq![MonitorReply::Found(true)];
            &&& requests(downloading(), before).len() == 1
            &&& replay(downloading(), before) matches Outcome::Finished { value, .. } && value
                == Some(LhmPlace::Bundled)
        }),
        ({
            let replies = seq![
                MonitorReply::Found(false),
                MonitorReply::Printed(text),
                MonitorReply::Found(there),
            ];
            let good = there && match text {
                Some(printed) => holds_word(printed@, "OK"@),
                None => false,
            };
            replay(downloading(), replies) matches Outcome::Finished { value, .. } && value == (
            if good {
                Some(LhmPlace::Bundled)
            } else {
                None
            })
        }),
{
    broadcast use {crate::session::group_replay, crate::session::group_requests};

    reveal_strlit("OK");
    assert(!has_part(seq![], "OK"@));
    if let Some(printed) = text {
        lemma_holds_word(printed@, "OK"@);
    }
    let replies = seq![
        MonitorReply::Found(false),
        MonitorReply::Printed(text),
        MonitorReply::Found(there),
    ];
    assert(replies.drop_first() =~= seq![MonitorReply::Printed(text), MonitorReply::Found(there)]);
    assert(replies.drop_first().drop_first() =~= seq![MonitorReply::Found(there)]);
}

} // verus!
