//! Running in the background on Linux: privileges, the one-time setup, and the daemon's beat.
use vstd::prelude::*;

use crate::text::{
    begins_with, chars_of, digits, find_line, first_line_with, is_digit, lemma_digits_numeral,
    lemma_digits_parse, lemma_line_len, lemma_trimmed_start, lemma_word_len, line_len, nth_word,
    parse_u32, parsed_unsigned, same, same_str, second_word, trim, trimmed,
};

verus! {

/// The option that starts the daemon.
pub const DAEMON_FLAG: &'static str = "--daemon";

/// The file that holds the daemon's process number.
pub const DAEMON_PID_FILE: &'static str = "/tmp/fancontroller-daemon.pid";

/// The file whose presence shows that the setup was done.
pub const UDEV_RULES_FILE: &'static str = "/etc/udev/rules.d/60-fancontroller.rules";

/// The file that lets the user drive graphics cards without a password.
pub const SUDOERS_FILE: &'static str = "/etc/sudoers.d/fancontroller";

/// A command of the setup: its arguments, and the text it reads.
pub struct SetupStep {
    pub args: Vec<String>,
    pub input: Option<String>,
}

/// The contents of a [`SetupStep`].
#[verifier::ext_equal]
pub struct StepView {
    pub args: Seq<Seq<char>>,
    pub input: Option<Seq<char>>,
}

/// The contents of a list of texts.
pub open spec fn texts(list: Seq<String>) -> Seq<Seq<char>> {
    list.map_values(|s: String| s@)
}

impl View for SetupStep {
    type V = StepView;

    open spec fn view(&self) -> StepView {
        StepView {
            args: texts(self.args@),
            input: match self.input {
                Some(text) => Some(text@),
                None => None,
            },
        }
    }
}

/// The contents of a list of commands.
pub open spec fn step_views(steps: Seq<SetupStep>) -> Seq<StepView> {
    steps.map_values(|s: SetupStep| s@)
}

/// Whether one of the arguments is `flag`.
pub open spec fn is_given(args: Seq<String>, flag: Seq<char>) -> bool {
    texts(args).contains(flag)
}

/// Whether a process with this status file runs as the superuser: the second word of the first
/// line that begins with `Uid:` is `0`.
pub open spec fn status_of_root(status: Seq<char>) -> bool {
    match first_line_with(status, "Uid:"@) {
        Some(line) => nth_word(line, 1) == Some("0"@),
        None => false,
    }
}

/// The rule that gives the fan devices to the group.
pub open spec fn udev_rule() -> Seq<char> {
    "SUBSYSTEM==\"hwmon\", KERNEL==\"hwmon[0-9]*\", ACTION==\"add\", GROUP=\"hwmon\", MODE=\"0660\"\n"@
}

/// The permission of a user to run the program with an option of the graphics cards.
pub open spec fn permission(user: Seq<char>, exe: Seq<char>, option: Seq<char>) -> Seq<char> {
    user + " ALL=(ALL) NOPASSWD: "@ + exe + option
}

/// The permissions of a user to set graphics cards and to hand them back.
pub open spec fn sudoers(user: Seq<char>, exe: Seq<char>) -> Seq<char> {
    permission(user, exe, " --gpu-set *\n"@) + permission(user, exe, " --gpu-reset *\n"@)
}

/// A command that reads nothing.
pub open spec fn plain_step(args: Seq<Seq<char>>) -> StepView {
    StepView { args, input: None }
}

/// The commands of the setup, each of which is run with superuser rights.
pub open spec fn setup_for(user: Seq<char>, exe: Seq<char>) -> Seq<StepView> {
    seq![
        plain_step(seq!["groupadd"@, "-f"@, "hwmon"@]),
        plain_step(seq!["usermod"@, "-aG"@, "hwmon"@, user]),
        StepView { args: seq!["tee"@, UDEV_RULES_FILE@], input: Some(udev_rule()) },
        plain_step(
            seq![
                "sh"@,
                "-c"@,
                "udevadm control --reload-rules && udevadm trigger --subsystem-match=hwmon"@,
            ],
        ),
        StepView { args: seq!["tee"@, SUDOERS_FILE@], input: Some(sudoers(user, exe)) },
        plain_step(seq!["chmod"@, "0440"@, SUDOERS_FILE@]),
    ]
}

/// The text, or another one in its place.
pub open spec fn text_or(text: Option<&str>, other: Seq<char>) -> Seq<char> {
    match text {
        Some(t) => t@,
        None => other,
    }
}

/// The curves that have a course: those with two points or more, in their order.
pub open spec fn with_course<P>(curves: Seq<(String, Vec<P>)>) -> Seq<(String, Vec<P>)> {
    curves.filter(|c: (String, Vec<P>)| c.1@.len() >= 2)
}

/// The setup is wanted where it was not done yet and the process has no superuser rights.
pub open spec fn setup_is_wanted(root: bool, rules_exist: bool) -> bool {
    !root && !rules_exist
}

/// The process number that the daemon leaves is the one that is read back.
pub proof fn lemma_pid_round_trip(pid: u32)
    ensures
        parsed_unsigned(trimmed(digits(pid as nat)), u32::MAX as nat) == Some(pid as nat),
{
    let text = digits(pid as nat);
    lemma_digits_numeral(pid as nat);
    lemma_digits_parse(pid as nat, u32::MAX as nat);
    assert(is_digit(text[0]) && is_digit(text[text.len() - 1]));
    assert(trimmed(text) == text);
}

/// Whether one of the arguments is `flag`.
pub fn has_flag(args: &Vec<String>, flag: &str) -> (out: bool)
    ensures
        out == is_given(args@, flag@),
{
    let mut i: usize = 0;
    while i < args.len()
        invariant
            i <= args@.len(),
            forall|j: int| 0 <= j < i ==> (#[trigger] texts(args@)[j]) != flag@,
        decreases args.len() - i,
    {
        if same_str(&args[i], flag) {
            assert(texts(args@)[i as int] == flag@);
            return true;
        }
        i = i + 1;
    }
    false
}

/// Whether the process with this status file runs as the superuser; one whose status cannot be
/// read does not.
pub fn is_root(status: Option<&str>) -> (out: bool)
    ensures
        out == (match status {
            Some(text) => status_of_root(text@),
            None => false,
        }),
{
    let text = match status {
        Some(text) => chars_of(text),
        None => return false,
    };
    let line = match find_line(&text, &chars_of("Uid:")) {
        Some(line) => line,
        None => return false,
    };
    match second_word(&line) {
        Some(word) => same(&word, &chars_of("0")),
        None => false,
    }
}

/// Whether the setup has to be done first.
pub fn needs_setup(root: bool, rules_exist: bool) -> (out: bool)
    ensures
        out == setup_is_wanted(root, rules_exist),
{
    !root && !rules_exist
}

/// The process number that the daemon left in its file, if the file holds one.
pub fn daemon_pid(text: &str) -> (out: Option<u32>)
    ensures
        out == (match parsed_unsigned(trimmed(text@), u32::MAX as nat) {
            Some(pid) => Some(pid as u32),
            None => None,
        }),
{
    parse_u32(&chars_of(trim(text)))
}

/// Whether the fans are looked for again in this beat, and the number of the next one. That is
/// every third beat.
pub fn beat(ticks: u32) -> (out: (bool, u32))
    ensures
        out.0 == (ticks % 3 == 0),
        out.1 == (ticks + 1) % 0x1_0000_0000,
{
    (ticks % 3 == 0, ticks.wrapping_add(1))
}

/// The curves of the custom profile that the daemon applies.
pub fn curves_to_apply<P>(profile: Vec<(String, Vec<P>)>) -> (out: Vec<(String, Vec<P>)>)
    ensures
        out@ == with_course(profile@),
{
    let ghost course = |c: (String, Vec<P>)| c.1@.len() >= 2;
    let ghost all = profile@;
    let mut out: Vec<(String, Vec<P>)> = Vec::new();
    let mut rest = profile;
    proof {
        reveal(Seq::filter);
        assert(all.take(0).filter(course) =~= seq![]);
        assert(all.skip(0) =~= all);
    }
    while rest.len() > 0
        invariant
            rest@.len() <= all.len(),
            rest@ == all.skip(all.len() - rest@.len()),
            course == (|c: (String, Vec<P>)| c.1@.len() >= 2),
            out@ == all.take(all.len() - rest@.len()).filter(course),
        decreases rest.len(),
    {
        let ghost read = all.len() - rest@.len();
        let curve = rest.remove(0);
        proof {
            reveal(Seq::filter);
            assert(all.take(read + 1).drop_last() =~= all.take(read));
            assert(rest@ =~= all.skip(read + 1));
        }
        if curve.1.len() >= 2 {
            out.push(curve);
        }
    }
    assert(all.take(all.len() as int) =~= all);
    out
}

/// Starts a command of the setup with one argument.
fn step(arg: &str) -> (out: SetupStep)
    ensures
        out@ == plain_step(seq![arg@]),
{
    let mut args: Vec<String> = Vec::new();
    args.push(arg.to_owned());
    let out = SetupStep { args, input: None };
    assert(out@.args =~= seq![arg@]);
    out
}

impl SetupStep {
    /// The command with one more argument.
    fn arg(self, arg: &str) -> (out: Self)
        ensures
            out@ == (StepView { args: self@.args.push(arg@), ..self@ }),
    {
        let mut out = self;
        out.args.push(arg.to_owned());
        assert(out@.args =~= self@.args.push(arg@));
        out
    }

    /// The command, reading a text.
    fn reading(self, text: String) -> (out: Self)
        ensures
            out@ == (StepView { input: Some(text@), ..self@ }),
    {
        SetupStep { args: self.args, input: Some(text) }
    }
}

fn push_permission(text: &mut String, user: &str, exe: &str, option: &str)
    ensures
        final(text)@ == old(text)@ + permission(user@, exe@, option@),
{
    text.append(user);
    text.append(" ALL=(ALL) NOPASSWD: ");
    text.append(exe);
    text.append(option);
    assert(text@ =~= old(text)@ + permission(user@, exe@, option@));
}

/// The commands of the one-time setup, each to be run with superuser rights, for a user and
/// the path of the program. A user whose name is not known stands for all of them, and a
/// program whose path is not known is taken to be installed.
pub fn setup_permissions(user: Option<&str>, exe: Option<&str>) -> (steps: Vec<SetupStep>)
    ensures
        step_views(steps@) == setup_for(
            text_or(user, "ALL"@),
            text_or(exe, "/usr/local/bin/fancontroller"@),
        ),
{
    let user = user.unwrap_or("ALL");
    let exe = exe.unwrap_or("/usr/local/bin/fancontroller");
    let rule = "SUBSYSTEM==\"hwmon\", KERNEL==\"hwmon[0-9]*\", ACTION==\"add\", GROUP=\"hwmon\", MODE=\"0660\"\n".to_owned();
    let mut permissions = String::new();
    push_permission(&mut permissions, user, exe, " --gpu-set *\n");
    push_permission(&mut permissions, user, exe, " --gpu-reset *\n");
    assert(permissions@ =~= sudoers(user@, exe@));
    let mut steps: Vec<SetupStep> = Vec::new();
    steps.push(step("groupadd").arg("-f").arg("hwmon"));
    steps.push(step("usermod").arg("-aG").arg("hwmon").arg(user));
    steps.push(step("tee").arg(UDEV_RULES_FILE).reading(rule));
    steps.push(
        step("sh").arg("-c").arg(
            "udevadm control --reload-rules && udevadm trigger --subsystem-match=hwmon",
        ),
    );
    steps.push(step("tee").arg(SUDOERS_FILE).reading(permissions));
    steps.push(step("chmod").arg("0440").arg(SUDOERS_FILE));
    assert(step_views(steps@) =~~= setup_for(user@, exe@));
    steps
}

/// A line that does not begin with the four characters `Uid:` makes no difference to whether a
/// process runs as the superuser.
pub proof fn lemma_other_lines_do_not_matter(line: Seq<char>, rest: Seq<char>)
    requires
        forall|i: int| 0 <= i < line.len() ==> #[trigger] line[i] != '\n',
        line.len() < 4 || line.take(4) != seq!['U', 'i', 'd', ':'],
    ensures
        status_of_root(line + seq!['\n'] + rest) == status_of_root(rest),
        !status_of_root(line),
{
    reveal_strlit("Uid:");
    assert("Uid:"@ =~= seq!['U', 'i', 'd', ':']);
    if begins_with(line, "Uid:"@) {
        assert(line.subrange(0, 4) =~= line.take(4));
    }
    let text = line + seq!['\n'] + rest;
    let n = line.len() as int;
    lemma_line_len(text, n);
    assert(text.take(n) =~= line);
    assert(text.skip(n + 1) =~= rest);
    lemma_line_len(line, n);
    assert(line.take(n) =~= line);
}

/// On the line that begins with `Uid:`, the first number decides: the process runs as the
/// superuser exactly if it is the text `0`.
pub proof fn lemma_uid_line(gap: Seq<char>, uid: Seq<char>, rest: Seq<char>)
    requires
        gap.len() > 0,
        forall|i: int| 0 <= i < gap.len() ==> #[trigger] gap[i] == ' ' || gap[i] == '\t',
        uid.len() > 0,
        forall|i: int| 0 <= i < uid.len() ==> '0' <= #[trigger] uid[i] <= '9',
        rest.len() == 0 || rest[0] == ' ' || rest[0] == '\t' || rest[0] == '\n',
    ensures
        status_of_root(seq!['U', 'i', 'd', ':'] + gap + uid + rest) == (uid == seq!['0']),
{
    reveal_strlit("Uid:");
    reveal_strlit("0");
    assert("Uid:"@ =~= seq!['U', 'i', 'd', ':']);
    assert("0"@ =~= seq!['0']);
    let head = "Uid:"@ + gap + uid;
    let text = head + rest;
    assert(text =~= seq!['U', 'i', 'd', ':'] + gap + uid + rest);
    lemma_head_of_line(head, rest);
    let k = line_len(rest) as int;
    let tail = rest.take(k);
    let line = head + tail;
    assert(text.take(head.len() + k) =~= line);
    assert(line.subrange(0, 4) =~= "Uid:"@);
    assert(first_line_with(text, "Uid:"@) == Some(line));
    lemma_trimmed_start(line, 0);
    assert(line.skip(0) =~= line);
    assert(line[4] == gap[0]);
    lemma_word_len(line, 4);
    let after = line.skip(4);
    assert(after =~= gap + uid + tail);
    lemma_trimmed_start(after, gap.len() as int);
    let words = after.skip(gap.len() as int);
    assert(words =~= uid + tail);
    if tail.len() > 0 {
        assert(words[uid.len() as int] == tail[0]);
        assert(tail[0] == rest[0]);
        assert(rest[0] != '\n');
    }
    lemma_word_len(words, uid.len() as int);
    assert(words.take(uid.len() as int) =~= uid);
    assert(nth_word(after, 0) == Some(uid));
    assert(nth_word(line, 1) == nth_word(after, 0));
}

proof fn lemma_head_of_line(head: Seq<char>, rest: Seq<char>)
    requires
        forall|i: int| 0 <= i < head.len() ==> #[trigger] head[i] != '\n',
    ensures
        line_len(head + rest) == head.len() + line_len(rest),
        line_len(rest) <= rest.len(),
    decreases head.len(),
{
    if head.len() > 0 {
        let shorter = head.drop_first();
        assert forall|i: int| 0 <= i < shorter.len() implies #[trigger] shorter[i] != '\n' by {
            assert(head[i + 1] != '\n');
        }
        lemma_head_of_line(shorter, rest);
        assert(head[0] != '\n');
        assert((head + rest).drop_first() =~= shorter + rest);
    } else {
        assert(head + rest =~= rest);
        lemma_line_within(rest);
    }
}

proof fn lemma_line_within(text: Seq<char>)
    ensures
        line_len(text) <= text.len(),
    decreases text.len(),
{
    if text.len() > 0 && text[0] != '\n' {
        lemma_line_within(text.drop_first());
    }
}

/// The daemon applies a curve exactly if it has two points or more, and keeps their order.
pub proof fn lemma_curves_with_a_course<P>(
    curves: Seq<(String, Vec<P>)>,
    curve: (String, Vec<P>),
)
    ensures
        with_course::<P>(seq![]).len() == 0,
        with_course(curves.push(curve)) == if curve.1@.len() < 2 {
            with_course(curves)
        } else {
            with_course(curves).push(curve)
        },
{
    reveal(Seq::filter);
    assert(curves.push(curve).drop_last() =~= curves);
}

/// The setup is done where there are no rules yet, by those who are not the superuser.
pub proof fn lemma_setup_is_wanted(root: bool, rules_exist: bool)
    ensures
        setup_is_wanted(root, rules_exist) <==> root == false && rules_exist == false,
{
}

/// A flag is given exactly if one of the arguments, the first and the last among them, is its
/// text.
pub proof fn lemma_flag_is_any_argument(args: Seq<String>, flag: Seq<char>)
    ensures
        is_given(args, flag) <==> exists|i: int|
            0 <= i < args.len() && (#[trigger] args[i])@ == flag,
{
    if is_given(args, flag) {
        let i = choose|i: int| 0 <= i < texts(args).len() && texts(args)[i] == flag;
        assert(args[i]@ == flag);
    }
    if exists|i: int| 0 <= i < args.len() && (#[trigger] args[i])@ == flag {
        let i = choose|i: int| 0 <= i < args.len() && (#[trigger] args[i])@ == flag;
        assert(texts(args)[i] == flag);
    }
}

/// The setup adds the user to the group, writes the user's two permissions for the program and
/// makes the file readable only, after the rules; nothing else in it depends on the user or on
/// where the program is.
pub proof fn lemma_setup_is_for_the_user(
    user: Seq<char>,
    exe: Seq<char>,
    other_user: Seq<char>,
    other_exe: Seq<char>,
)
    ensures
        ({
            let steps = setup_for(user, exe);
            let others = setup_for(other_user, other_exe);
            &&& steps.len() == 6
            &&& others.len() == 6
            &&& steps[1].args == seq!["usermod"@, "-aG"@, "hwmon"@, user]
            &&& steps[4].input == Some(
                user + " ALL=(ALL) NOPASSWD: "@ + exe + " --gpu-set *\n"@ + user
                    + " ALL=(ALL) NOPASSWD: "@ + exe + " --gpu-reset *\n"@,
            )
            &&& steps[4].args[1] == steps[5].args[2]
            &&& steps[4].args == others[4].args
            &&& steps[1].input == others[1].input
            &&& forall|i: int|
                0 <= i < 6 && i != 1 && i != 4 ==> #[trigger] steps[i] == others[i]
        }),
{
    let text = user + " ALL=(ALL) NOPASSWD: "@ + exe + " --gpu-set *\n"@ + user
        + " ALL=(ALL) NOPASSWD: "@ + exe + " --gpu-reset *\n"@;
    assert(sudoers(user, exe) =~= text);
}

} // verus!
