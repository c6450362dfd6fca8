//! Messages of the user interface, and what the controller is told to do for them.
use vstd::prelude::*;

use crate::fan::{fan_views, FanInfo, FanView};
use crate::text::same_str;

verus! {

/// A message of the user interface. `P` is a point of a fan curve.
pub enum IpcMessage<P> {
    /// Drive a fan by a curve.
    SetCurve { fan_id: String, points: Vec<P> },
    /// Drive a fan at a fixed speed.
    SetSpeed { fan_id: String, rpm_percent: u8 },
    /// Hand a fan back to automatic control.
    ResetToDefault { fan_id: String },
    /// Look for fans again.
    Rescan,
    /// Give a fan another label.
    RenameFan { fan_id: String, label: String },
    /// Hand every fan back to automatic control.
    ResetAll,
    /// Store a fan's curve in the custom profile.
    SaveCustomProfile { fan_id: String, points: Vec<P> },
}

/// One thing the controller does.
pub enum Command<P> {
    SetCurve { fan_id: String, points: Vec<P> },
    SetFixedSpeed { fan_id: String, pct: u8 },
    ResetToDefault { fan_id: String },
    ScanAll,
    RenameFan { fan_id: String, label: String },
    SaveCustomCurve { fan_id: String, points: Vec<P> },
}

/// The contents of an [`IpcMessage`].
#[verifier::ext_equal]
pub enum MessageView<P> {
    SetCurve { fan_id: Seq<char>, points: Seq<P> },
    SetSpeed { fan_id: Seq<char>, rpm_percent: u8 },
    ResetToDefault { fan_id: Seq<char> },
    Rescan,
    RenameFan { fan_id: Seq<char>, label: Seq<char> },
    ResetAll,
    SaveCustomProfile { fan_id: Seq<char>, points: Seq<P> },
}

/// The contents of a [`Command`].
#[verifier::ext_equal]
pub enum CommandView<P> {
    SetCurve { fan_id: Seq<char>, points: Seq<P> },
    SetFixedSpeed { fan_id: Seq<char>, pct: u8 },
    ResetToDefault { fan_id: Seq<char> },
    ScanAll,
    RenameFan { fan_id: Seq<char>, label: Seq<char> },
    SaveCustomCurve { fan_id: Seq<char>, points: Seq<P> },
}

impl<P> View for IpcMessage<P> {
    type V = MessageView<P>;

    open spec fn view(&self) -> MessageView<P> {
        match *self {
            IpcMessage::SetCurve { fan_id, points } => MessageView::SetCurve {
                fan_id: fan_id@,
                points: points@,
            },
            IpcMessage::SetSpeed { fan_id, rpm_percent } => MessageView::SetSpeed {
                fan_id: fan_id@,
                rpm_percent,
            },
            IpcMessage::ResetToDefault { fan_id } => MessageView::ResetToDefault {
                fan_id: fan_id@,
            },
            IpcMessage::Rescan => MessageView::Rescan,
            IpcMessage::RenameFan { fan_id, label } => MessageView::RenameFan {
                fan_id: fan_id@,
                label: label@,
            },
            IpcMessage::ResetAll => MessageView::ResetAll,
            IpcMessage::SaveCustomProfile { fan_id, points } => MessageView::SaveCustomProfile {
                fan_id: fan_id@,
                points: points@,
            },
        }
    }
}

impl<P> View for Command<P> {
    type V = CommandView<P>;

    open spec fn view(&self) -> CommandView<P> {
        match *self {
            Command::SetCurve { fan_id, points } => CommandView::SetCurve {
                fan_id: fan_id@,
                points: points@,
            },
            Command::SetFixedSpeed { fan_id, pct } => CommandView::SetFixedSpeed {
                fan_id: fan_id@,
                pct,
            },
            Command::ResetToDefault { fan_id } => CommandView::ResetToDefault { fan_id: fan_id@ },
            Command::ScanAll => CommandView::ScanAll,
            Command::RenameFan { fan_id, label } => CommandView::RenameFan {
                fan_id: fan_id@,
                label: label@,
            },
            Command::SaveCustomCurve { fan_id, points } => CommandView::SaveCustomCurve {
                fan_id: fan_id@,
                points: points@,
            },
        }
    }
}

/// The contents of a list of commands.
pub open spec fn command_views<P>(commands: Seq<Command<P>>) -> Seq<CommandView<P>> {
    commands.map_values(|c: Command<P>| c@)
}

/// Whether the first fan with this identifier can be driven; a fan that is not there cannot.
pub open spec fn can_drive(fans: Seq<FanView>, fan_id: Seq<char>) -> bool
    decreases fans.len(),
{
    if fans.len() == 0 {
        false
    } else if fans[0].id == fan_id {
        fans[0].controllable
    } else {
        can_drive(fans.drop_first(), fan_id)
    }
}

/// Hands every fan back, in the fans' order.
pub open spec fn resets<P>(fans: Seq<FanView>) -> Seq<CommandView<P>> {
    fans.map_values(|f: FanView| CommandView::ResetToDefault { fan_id: f.id })
}

/// The one command, if the fan can be driven.
pub open spec fn if_drivable<P>(
    fans: Seq<FanView>,
    fan_id: Seq<char>,
    command: CommandView<P>,
) -> Seq<CommandView<P>> {
    if can_drive(fans, fan_id) {
        seq![command]
    } else {
        seq![]
    }
}

/// What the controller is told to do for a message.
pub open spec fn commands_for<P>(message: MessageView<P>, fans: Seq<FanView>) -> Seq<
    CommandView<P>,
> {
    match message {
        MessageView::SetCurve { fan_id, points } => if_drivable(
            fans,
            fan_id,
            CommandView::SetCurve { fan_id, points },
        ),
        MessageView::SetSpeed { fan_id, rpm_percent } => if_drivable(
            fans,
            fan_id,
            CommandView::SetFixedSpeed { fan_id, pct: rpm_percent },
        ),
        MessageView::ResetToDefault { fan_id } => if_drivable(
            fans,
            fan_id,
            CommandView::ResetToDefault { fan_id },
        ),
        MessageView::Rescan => seq![CommandView::ScanAll],
        MessageView::RenameFan { fan_id, label } => seq![CommandView::RenameFan { fan_id, label }],
        MessageView::ResetAll => resets(fans),
        MessageView::SaveCustomProfile { fan_id, points } => seq![
            CommandView::SaveCustomCurve { fan_id, points },
        ],
    }
}

/// The fan that a command drives: sets, puts on a curve, or hands back.
pub open spec fn driven<P>(command: CommandView<P>) -> Option<Seq<char>> {
    match command {
        CommandView::SetCurve { fan_id, points } => Some(fan_id),
        CommandView::SetFixedSpeed { fan_id, pct } => Some(fan_id),
        CommandView::ResetToDefault { fan_id } => Some(fan_id),
        _ => None,
    }
}

/// No message but the one that hands every fan back drives a fan that cannot be driven.
pub proof fn lemma_only_drivable_fans<P>(message: MessageView<P>, fans: Seq<FanView>, i: int)
    requires
        message !is ResetAll,
        0 <= i < commands_for(message, fans).len(),
    ensures
        driven(commands_for(message, fans)[i]) matches Some(fan_id) ==> can_drive(fans, fan_id),
{
}

/// Resetting all fans hands each fan back, once and in order, and does nothing else.
pub proof fn lemma_reset_all<P>(fans: Seq<FanView>)
    ensures
        commands_for::<P>(MessageView::ResetAll, fans).len() == fans.len(),
        forall|i: int|
            0 <= i < fans.len() ==> #[trigger] commands_for::<P>(MessageView::ResetAll, fans)[i]
                == (CommandView::<P>::ResetToDefault { fan_id: fans[i].id }),
{
}

/// Whether the fan at position `i` is the first with this identifier.
pub open spec fn is_first(fans: Seq<FanView>, fan_id: Seq<char>, i: int) -> bool {
    &&& 0 <= i < fans.len()
    &&& fans[i].id == fan_id
    &&& forall|j: int| 0 <= j < i ==> fans[j].id != fan_id
}

/// Whether a fan can be driven is what the first fan with its identifier says; a fan that is not
/// there cannot.
pub proof fn lemma_first_fan_decides(fans: Seq<FanView>, fan_id: Seq<char>)
    ensures
        forall|i: int| #[trigger]
            is_first(fans, fan_id, i) ==> can_drive(fans, fan_id) == fans[i].controllable,
        (forall|i: int| 0 <= i < fans.len() ==> (#[trigger] fans[i]).id != fan_id) ==> !can_drive(
            fans,
            fan_id,
        ),
    decreases fans.len(),
{
    if fans.len() > 0 && fans[0].id != fan_id {
        let rest = fans.drop_first();
        lemma_first_fan_decides(rest, fan_id);
        assert forall|i: int| #[trigger] is_first(fans, fan_id, i) implies can_drive(fans, fan_id)
            == fans[i].controllable by {
            assert forall|j: int| 0 <= j < i - 1 implies rest[j].id != fan_id by {
                assert(fans[j + 1].id != fan_id);
            }
            assert(is_first(rest, fan_id, i - 1));
        }
        if forall|i: int| 0 <= i < fans.len() ==> (#[trigger] fans[i]).id != fan_id {
            assert forall|i: int| 0 <= i < rest.len() implies (#[trigger] rest[i]).id != fan_id by {
                assert(fans[i + 1].id != fan_id);
            }
        }
    } else if fans.len() > 0 {
        assert forall|i: int| #[trigger] is_first(fans, fan_id, i) implies can_drive(fans, fan_id)
            == fans[i].controllable by {
            assert(i == 0);
        }
    }
}

/// A message about one fan whose first entry can be driven becomes the one command that does what
/// it says, for that fan and with what the message carries.
pub proof fn lemma_messages_are_obeyed<P>(
    fans: Seq<FanView>,
    fan_id: Seq<char>,
    i: int,
    points: Seq<P>,
    pct: u8,
)
    requires
        is_first(fans, fan_id, i),
    ensures
        fans[i].controllable ==> {
            &&& commands_for(MessageView::SetCurve { fan_id, points }, fans) == seq![
                CommandView::SetCurve { fan_id, points },
            ]
            &&& commands_for::<P>(MessageView::SetSpeed { fan_id, rpm_percent: pct }, fans) == seq![
                CommandView::<P>::SetFixedSpeed { fan_id, pct },
            ]
            &&& commands_for::<P>(MessageView::ResetToDefault { fan_id }, fans) == seq![
                CommandView::<P>::ResetToDefault { fan_id },
            ]
        },
        !fans[i].controllable ==> {
            &&& commands_for(MessageView::SetCurve { fan_id, points }, fans).len() == 0
            &&& commands_for::<P>(
                MessageView::SetSpeed { fan_id, rpm_percent: pct },
                fans,
            ).len() == 0
            &&& commands_for::<P>(MessageView::ResetToDefault { fan_id }, fans).len() == 0
        },
{
    lemma_first_fan_decides(fans, fan_id);
}

/// A message about a fan that is not there drives nothing.
pub proof fn lemma_unknown_fans_are_left_alone<P>(
    fans: Seq<FanView>,
    fan_id: Seq<char>,
    points: Seq<P>,
    pct: u8,
)
    requires
        forall|i: int| 0 <= i < fans.len() ==> (#[trigger] fans[i]).id != fan_id,
    ensures
        commands_for(MessageView::SetCurve { fan_id, points }, fans).len() == 0,
        commands_for::<P>(MessageView::SetSpeed { fan_id, rpm_percent: pct }, fans).len() == 0,
        commands_for::<P>(MessageView::ResetToDefault { fan_id }, fans).len() == 0,
{
    lemma_first_fan_decides(fans, fan_id);
}

/// Looking for fans, renaming one and storing a curve are done whatever the fans are, with what
/// the message carries.
pub proof fn lemma_other_messages<P>(
    fans: Seq<FanView>,
    fan_id: Seq<char>,
    label: Seq<char>,
    points: Seq<P>,
)
    ensures
        commands_for::<P>(MessageView::Rescan, fans) == seq![CommandView::<P>::ScanAll],
        commands_for::<P>(MessageView::RenameFan { fan_id, label }, fans) == seq![
            CommandView::<P>::RenameFan { fan_id, label },
        ],
        commands_for(MessageView::SaveCustomProfile { fan_id, points }, fans) == seq![
            CommandView::SaveCustomCurve { fan_id, points },
        ],
{
}

/// Whether the fan with this identifier is there and can be driven.
pub fn is_controllable(fans: &Vec<FanInfo>, fan_id: &str) -> (out: bool)
    ensures
        out == can_drive(fan_views(fans@), fan_id@),
{
    let ghost views = fan_views(fans@);
    let mut i: usize = 0;
    assert(views.skip(0) =~= views);
    while i < fans.len()
        invariant
            i <= fans@.len(),
            views == fan_views(fans@),
            can_drive(views, fan_id@) == can_drive(views.skip(i as int), fan_id@),
        decreases fans.len() - i,
    {
        assert(views.skip(i as int)[0] == fans@[i as int]@);
        assert(views.skip(i as int).drop_first() =~= views.skip(i + 1));
        if same_str(&fans[i].id, fan_id) {
            return fans[i].controllable;
        }
        i = i + 1;
    }
    false
}

fn reset_each<P>(fans: &Vec<FanInfo>) -> (commands: Vec<Command<P>>)
    ensures
        command_views(commands@) == resets::<P>(fan_views(fans@)),
{
    let mut commands: Vec<Command<P>> = Vec::new();
    let mut i: usize = 0;
    while i < fans.len()
        invariant
            i <= fans@.len(),
            command_views(commands@) == resets::<P>(fan_views(fans@.take(i as int))),
        decreases fans.len() - i,
    {
        let ghost before = commands@;
        commands.push(Command::ResetToDefault { fan_id: fans[i].id.clone() });
        assert(command_views(commands@) =~= command_views(before).push(commands@.last()@));
        assert(fan_views(fans@.take(i + 1)) =~= fan_views(fans@.take(i as int)).push(
            fans@[i as int]@,
        ));
        assert(resets::<P>(fan_views(fans@.take(i + 1))) =~= resets::<P>(
            fan_views(fans@.take(i as int)),
        ).push(CommandView::ResetToDefault { fan_id: fans@[i as int].id@ }));
        i = i + 1;
    }
    assert(fans@.take(i as int) =~= fans@);
    commands
}

/// What the controller is told to do for a message, given the fans it knows.
pub fn handle_ipc_message<P>(message: IpcMessage<P>, fans: &Vec<FanInfo>) -> (commands: Vec<
    Command<P>,
>)
    ensures
        command_views(commands@) == commands_for(message@, fan_views(fans@)),
{
    let mut commands: Vec<Command<P>> = Vec::new();
    match message {
        IpcMessage::SetCurve { fan_id, points } => {
            if is_controllable(fans, &fan_id) {
                commands.push(Command::SetCurve { fan_id, points });
            }
        },
        IpcMessage::SetSpeed { fan_id, rpm_percent } => {
            if is_controllable(fans, &fan_id) {
                commands.push(Command::SetFixedSpeed { fan_id, pct: rpm_percent });
            }
        },
        IpcMessage::ResetToDefault { fan_id } => {
            if is_controllable(fans, &fan_id) {
                commands.push(Command::ResetToDefault { fan_id });
            }
        },
        IpcMessage::Rescan => {
            commands.push(Command::ScanAll);
        },
        IpcMessage::RenameFan { fan_id, label } => {
            commands.push(Command::RenameFan { fan_id, label });
        },
        IpcMessage::ResetAll => {
            commands = reset_each(fans);
        },
        IpcMessage::SaveCustomProfile { fan_id, points } => {
            commands.push(Command::SaveCustomCurve { fan_id, points });
        },
    }
    assert(command_views(commands@) =~= commands_for(message@, fan_views(fans@)));
    commands
}

} // verus!
