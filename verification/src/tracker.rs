//! The registry of running activities, and what a renderer is told to do
//! for each event.

use crate::ansi::{ansi_stripped, clean_log_line, spec_clean};
use crate::json::{json_text_value, JsonError, JsonErrorView};
use crate::log_item::{
    parse_line, spec_parse_line, spec_payload, Activity, ActivityType, ActivityView, LogItem,
    LogItemView, LogResult, LogResultView, Verbosity,
};
use crate::text::{decimal, has_prefix, spec_decimal, spec_has_prefix};
use crate::utils::{spec_store_path_base, store_path_base};
use std::collections::HashMap;
use vstd::prelude::*;
use vstd::std_specs::hash::*;
use vstd::string::*;

verus! {

broadcast use vstd::std_specs::hash::group_hash_axioms;

/// How a render target presents its activity.
#[derive(Clone, Copy, Debug, PartialEq, Eq, Structural, Hash)]
pub enum Style {
    /// One line of free text.
    Message,
    /// A bar with a label and a count of what is done.
    Bar,
    /// A count of bytes with a text.
    Bytes,
    /// A log line behind a label.
    Log,
}

/// The group that an activity is placed under when it is shown.
#[derive(Clone, Copy, Debug, PartialEq, Eq, Structural, Hash)]
pub enum ParentLink {
    /// No group: the activity stands at the top level.
    TopLevel,
    /// The group of copies and downloads.
    CopyGroup,
    /// The group of builds.
    BuildGroup,
}

/// What the tracker knows of a running activity.
#[derive(Clone, Debug, PartialEq, Eq)]
pub struct TrackedActivity {
    /// The kind that the activity started with.
    pub kind: ActivityType,
    /// The display name, made when the activity started; empty for the
    /// kinds that have none.
    pub name: String,
    /// The group that the activity belongs under.
    pub link: ParentLink,
    /// Whether the target is attached to the display.
    pub visible: bool,
}

/// The mathematical value of a [`TrackedActivity`].
pub struct TrackedView {
    pub kind: ActivityType,
    pub name: Seq<char>,
    pub link: ParentLink,
    pub visible: bool,
}

impl View for TrackedActivity {
    type V = TrackedView;

    open spec fn view(&self) -> TrackedView {
        TrackedView { kind: self.kind, name: self.name@, link: self.link, visible: self.visible }
    }
}

/// One thing for a renderer to do.  A target is named by the id of its
/// activity.
#[derive(Clone, Debug, PartialEq, Eq)]
pub enum RenderCommand {
    /// Make a target; a visible one is attached by the command that follows.
    Create { id: i64, style: Style, label: String, text: String, visible: bool },
    /// Put a target on the display: behind the target `after`, or at the end
    /// of the top level.
    Attach { id: i64, after: Option<i64> },
    /// Take a target off the display.
    Detach { id: i64 },
    SetMessage { id: i64, text: String },
    SetLabel { id: i64, text: String },
    SetTotal { id: i64, total: u64 },
    SetPosition { id: i64, position: u64 },
    /// Show that the activity is alive.
    Tick { id: i64 },
    /// Clear a target and take it off the display for good.
    FinishAndRemove { id: i64 },
    /// Print a line of its own, outside every target.
    Println { text: String },
}

/// The mathematical value of a [`RenderCommand`].
pub enum CommandView {
    Create { id: i64, style: Style, label: Seq<char>, text: Seq<char>, visible: bool },
    Attach { id: i64, after: Option<i64> },
    Detach { id: i64 },
    SetMessage { id: i64, text: Seq<char> },
    SetLabel { id: i64, text: Seq<char> },
    SetTotal { id: i64, total: u64 },
    SetPosition { id: i64, position: u64 },
    Tick { id: i64 },
    FinishAndRemove { id: i64 },
    Println { text: Seq<char> },
}

impl View for RenderCommand {
    type V = CommandView;

    open spec fn view(&self) -> CommandView {
        match self {
            RenderCommand::Create { id, style, label, text, visible } => CommandView::Create {
                id: *id,
                style: *style,
                label: label@,
                text: text@,
                visible: *visible,
            },
            RenderCommand::Attach { id, after } => CommandView::Attach { id: *id, after: *after },
            RenderCommand::Detach { id } => CommandView::Detach { id: *id },
            RenderCommand::SetMessage { id, text } => CommandView::SetMessage {
                id: *id,
                text: text@,
            },
            RenderCommand::SetLabel { id, text } => CommandView::SetLabel { id: *id, text: text@ },
            RenderCommand::SetTotal { id, total } => CommandView::SetTotal {
                id: *id,
                total: *total,
            },
            RenderCommand::SetPosition { id, position } => CommandView::SetPosition {
                id: *id,
                position: *position,
            },
            RenderCommand::Tick { id } => CommandView::Tick { id: *id },
            RenderCommand::FinishAndRemove { id } => CommandView::FinishAndRemove { id: *id },
            RenderCommand::Println { text } => CommandView::Println { text: text@ },
        }
    }
}

/// The views of a list of commands.
pub open spec fn commands_view(commands: Seq<RenderCommand>) -> Seq<CommandView> {
    Seq::new(commands.len(), |i: int| commands[i]@)
}

/// The state of a tracker: the running activities by their ids, and the
/// activity that stands for each of the two groups, if one was started.
pub struct TrackerView {
    pub activities: Map<i64, TrackedView>,
    pub copy_parent: Option<i64>,
    pub build_parent: Option<i64>,
}

/// A state after an event, and the commands that the event gave rise to.
pub struct Step {
    pub state: TrackerView,
    pub commands: Seq<CommandView>,
}

impl TrackerView {
    /// The state without any activity.
    pub open spec fn empty() -> TrackerView {
        TrackerView { activities: Map::empty(), copy_parent: None, build_parent: None }
    }

    /// Whether the activity `id` is running.
    pub open spec fn is_live(self, id: i64) -> bool {
        self.activities.contains_key(id)
    }

    /// The running activity that stands for the group of `link`, if there
    /// is one: the target that a member of the group is placed behind.
    pub open spec fn parent(self, link: ParentLink) -> Option<i64> {
        match link {
            ParentLink::TopLevel => None,
            ParentLink::CopyGroup => match self.copy_parent {
                Some(id) => if self.is_live(id) {
                    Some(id)
                } else {
                    None
                },
                None => None,
            },
            ParentLink::BuildGroup => match self.build_parent {
                Some(id) => if self.is_live(id) {
                    Some(id)
                } else {
                    None
                },
                None => None,
            },
        }
    }

    /// Whether the state is in order: every running activity is kept as
    /// its kind asks, and each group's activity, where one is noted, is
    /// running and is of the kind that stands for the group.
    pub open spec fn wf(self) -> bool {
        &&& forall|id: i64| self.is_live(id) ==> spec_entry_wf(#[trigger] self.activities[id])
        &&& self.copy_parent matches Some(id) ==> self.is_live(id) && self.activities[id].kind
            == ActivityType::CopyPaths
        &&& self.build_parent matches Some(id) ==> self.is_live(id) && self.activities[id].kind
            == ActivityType::Builds
    }
}

/// Whether an activity is kept as its kind asks: under the group of its
/// kind, and visible unless it is a file transfer.
pub open spec fn spec_entry_wf(entry: TrackedView) -> bool {
    &&& entry.link == spec_link(entry.kind)
    &&& spec_starts_visible(entry.kind) ==> entry.visible
}

/// The group that an activity of a kind belongs under: copies and file
/// transfers under the group of copies, builds under the group of builds.
pub open spec fn spec_link(kind: ActivityType) -> ParentLink {
    match kind {
        ActivityType::CopyPath => ParentLink::CopyGroup,
        ActivityType::FileTransfer => ParentLink::CopyGroup,
        ActivityType::Build => ParentLink::BuildGroup,
        _ => ParentLink::TopLevel,
    }
}

/// Whether an activity of a kind is shown from its start.  A file transfer
/// is not: it is shown once it has made progress.
pub open spec fn spec_starts_visible(kind: ActivityType) -> bool {
    kind != ActivityType::FileTransfer
}

/// The style of the target of an activity.
pub open spec fn spec_style(kind: ActivityType) -> Style {
    match kind {
        ActivityType::CopyPaths => Style::Bar,
        ActivityType::Builds => Style::Bar,
        ActivityType::FileTransfer => Style::Bytes,
        ActivityType::Build => Style::Log,
        _ => Style::Message,
    }
}

/// The label that the target of an activity starts with.
pub open spec fn spec_label(activity: ActivityView) -> Seq<char> {
    match activity {
        ActivityView::CopyPaths => "Downloading"@,
        ActivityView::Builds => "Building"@,
        ActivityView::CopyPath { path, .. } => spec_store_path_base(path),
        ActivityView::Build { path, .. } => spec_store_path_base(path),
        _ => Seq::empty(),
    }
}

/// The text that the target of an activity starts with: the text of the
/// start, but for a file transfer, which shows its address.
pub open spec fn spec_first_text(activity: ActivityView, text: Seq<char>) -> Seq<char> {
    match activity {
        ActivityView::FileTransfer { uri } => uri,
        ActivityView::Realise => "Realising paths"@,
        _ => text,
    }
}

/// The display name that is kept for an activity: a build is named by its
/// store path, the other kinds have no name.
pub open spec fn spec_name(activity: ActivityView) -> Seq<char> {
    match activity {
        ActivityView::Build { path, .. } => spec_store_path_base(path),
        _ => Seq::empty(),
    }
}

/// What the tracker keeps of an activity that starts.
pub open spec fn spec_entry(activity: ActivityView) -> TrackedView {
    TrackedView {
        kind: activity.kind(),
        name: spec_name(activity),
        link: spec_link(activity.kind()),
        visible: spec_starts_visible(activity.kind()),
    }
}

/// A count as the renderer takes it: a negative one is read as the
/// unsigned number with the same 64 bits.
pub open spec fn spec_count(n: i64) -> u64 {
    if n >= 0 {
        n as u64
    } else {
        (n + 0x1_0000_0000_0000_0000) as u64
    }
}

/// The line that reports a start for an id that is running.
pub open spec fn spec_duplicate_line(id: i64) -> Seq<char> {
    "Duplicate id "@ + spec_decimal(id as int)
}

/// The line that reports an update for an id that is not running.
pub open spec fn spec_missing_line(id: i64) -> Seq<char> {
    "Missing id "@ + spec_decimal(id as int)
}

/// The line that reports a structured line that was not understood.
pub open spec fn spec_unknown_line(line: Seq<char>) -> Seq<char> {
    "Unknown message: "@ + line
}

/// The label of an activity in a phase.
pub open spec fn spec_phase_label(name: Seq<char>, phase: Seq<char>) -> Seq<char> {
    name + " ("@ + phase + ")"@
}

/// The start of the activity `id`.  Where `id` is running the start is
/// reported and dropped.  Else the activity is kept, a target is made for
/// it, and the target is attached where the activity starts visible: behind
/// the activity of its group where that is running, at the top level where
/// not.  An activity that starts a group is noted as the group's.
pub open spec fn spec_start(
    state: TrackerView,
    id: i64,
    text: Seq<char>,
    activity: ActivityView,
) -> Step {
    let kind = activity.kind();
    if state.is_live(id) {
        Step { state, commands: seq![CommandView::Println { text: spec_duplicate_line(id) }] }
    } else {
        let create = CommandView::Create {
            id,
            style: spec_style(kind),
            label: spec_label(activity),
            text: spec_first_text(activity, text),
            visible: spec_starts_visible(kind),
        };
        Step {
            state: TrackerView {
                activities: state.activities.insert(id, spec_entry(activity)),
                copy_parent: if kind == ActivityType::CopyPaths {
                    Some(id)
                } else {
                    state.copy_parent
                },
                build_parent: if kind == ActivityType::Builds {
                    Some(id)
                } else {
                    state.build_parent
                },
            },
            commands: if spec_starts_visible(kind) {
                seq![create, CommandView::Attach { id, after: state.parent(spec_link(kind)) }]
            } else {
                seq![create]
            },
        }
    }
}

/// Whether an update shows an activity that is not yet visible: progress
/// with something done does.
pub open spec fn spec_promotes(entry: TrackedView, result: LogResultView) -> bool {
    !entry.visible && (result matches LogResultView::Progress { done, .. } && done > 0)
}

/// The commands of an update to the running activity `id`, behind the tick
/// that every update begins with.  `cleaned` is the log line of the update
/// without its escape sequences, where the update is a log line and that
/// text could be made.
pub open spec fn spec_update_commands(
    state: TrackerView,
    id: i64,
    result: LogResultView,
    cleaned: Option<Seq<char>>,
) -> Seq<CommandView> {
    let entry = state.activities[id];
    match result {
        LogResultView::BuildLogLine { .. } | LogResultView::PostBuildLogLine { .. } => match cleaned {
            Some(text) => seq![CommandView::SetMessage { id, text }],
            None => Seq::empty(),
        },
        LogResultView::SetPhase { phase } => seq![
            CommandView::SetLabel { id, text: spec_phase_label(entry.name, phase) },
        ],
        LogResultView::Progress { done, expected, .. } => {
            let counts = seq![
                CommandView::SetTotal { id, total: spec_count(expected) },
                CommandView::SetPosition { id, position: spec_count(done) },
            ];
            if spec_promotes(entry, result) {
                counts + seq![
                    CommandView::Detach { id },
                    CommandView::Attach { id, after: state.parent(entry.link) },
                ]
            } else {
                counts
            }
        },
        _ => Seq::empty(),
    }
}

/// An update to the activity `id`.  Where `id` is not running the update is
/// reported and dropped.  Else the target is ticked and the update is
/// applied to it; progress with something done makes a hidden activity
/// visible.
pub open spec fn spec_update(
    state: TrackerView,
    id: i64,
    result: LogResultView,
    cleaned: Option<Seq<char>>,
) -> Step {
    if !state.is_live(id) {
        Step { state, commands: seq![CommandView::Println { text: spec_missing_line(id) }] }
    } else {
        let entry = state.activities[id];
        Step {
            state: if spec_promotes(entry, result) {
                TrackerView {
                    activities: state.activities.insert(
                        id,
                        TrackedView { visible: true, ..entry },
                    ),
                    ..state
                }
            } else {
                state
            },
            commands: seq![CommandView::Tick { id }] + spec_update_commands(
                state,
                id,
                result,
                cleaned,
            ),
        }
    }
}

/// The end of the activity `id`.  Where `id` is not running nothing
/// happens.  Else the activity is forgotten, also as the activity of a
/// group, and its target is finished and removed.
pub open spec fn spec_stop(state: TrackerView, id: i64) -> Step {
    if !state.is_live(id) {
        Step { state, commands: Seq::empty() }
    } else {
        Step {
            state: TrackerView {
                activities: state.activities.remove(id),
                copy_parent: if state.copy_parent == Some(id) {
                    None
                } else {
                    state.copy_parent
                },
                build_parent: if state.build_parent == Some(id) {
                    None
                } else {
                    state.build_parent
                },
            },
            commands: seq![CommandView::FinishAndRemove { id }],
        }
    }
}

/// Whether a message is printed: one of the level `Error` or of a more
/// severe one, unless it begins with `linking `.
pub open spec fn spec_message_shown(level: Verbosity, text: Seq<char>) -> bool {
    level.spec_at_least(Verbosity::Error) && !spec_has_prefix(text, "linking "@)
}

/// The commands of a message.
pub open spec fn spec_message(level: Verbosity, text: Seq<char>) -> Seq<CommandView> {
    if spec_message_shown(level, text) {
        seq![CommandView::Println { text }]
    } else {
        Seq::empty()
    }
}

/// The log line of an item, where the item is an update that carries one.
pub open spec fn spec_log_line(item: LogItemView) -> Option<Seq<char>> {
    match item {
        LogItemView::Result { result: LogResultView::BuildLogLine { line }, .. } => Some(line),
        LogItemView::Result { result: LogResultView::PostBuildLogLine { line }, .. } => Some(line),
        _ => None,
    }
}

/// The state and the commands after one item.  `line` is the line that the
/// item was decoded from; `cleaned` is the log line of the item without its
/// escape sequences, where it carries one and that text could be made.
pub open spec fn spec_step(
    state: TrackerView,
    item: LogItemView,
    line: Seq<char>,
    cleaned: Option<Seq<char>>,
) -> Step {
    match item {
        LogItemView::Msg { level, msg } => Step { state, commands: spec_message(level, msg) },
        LogItemView::Start { id, text, activity, .. } => spec_start(state, id, text, activity),
        LogItemView::Result { id, result } => spec_update(state, id, result, cleaned),
        LogItemView::Stop { id } => spec_stop(state, id),
        LogItemView::OutputLine(text) => Step {
            state,
            commands: seq![CommandView::Println { text }],
        },
        LogItemView::UnknownItem(_) => Step {
            state,
            commands: seq![CommandView::Println { text: spec_unknown_line(line) }],
        },
    }
}

/// What cleaning makes of the log line of an item, given what stripping
/// the escape sequences leaves of it.
pub open spec fn spec_cleaned(item: LogItemView) -> Option<Seq<char>> {
    match spec_log_line(item) {
        Some(line) => spec_clean(ansi_stripped(line)),
        None => None,
    }
}

/// The registry of the running activities.
pub struct Tracker {
    activities: HashMap<i64, TrackedActivity>,
    copy_parent: Option<i64>,
    build_parent: Option<i64>,
}

impl View for Tracker {
    type V = TrackerView;

    closed spec fn view(&self) -> TrackerView {
        TrackerView {
            activities: Map::new(
                |id: i64| self.activities@.contains_key(id),
                |id: i64| self.activities@[id]@,
            ),
            copy_parent: self.copy_parent,
            build_parent: self.build_parent,
        }
    }
}

/// The group that an activity of a kind belongs under.
pub fn link_of(kind: ActivityType) -> (link: ParentLink)
    ensures
        link == spec_link(kind),
{
    match kind {
        ActivityType::CopyPath => ParentLink::CopyGroup,
        ActivityType::FileTransfer => ParentLink::CopyGroup,
        ActivityType::Build => ParentLink::BuildGroup,
        _ => ParentLink::TopLevel,
    }
}

/// The style of the target of an activity of a kind.
pub fn style_of(kind: ActivityType) -> (style: Style)
    ensures
        style == spec_style(kind),
{
    match kind {
        ActivityType::CopyPaths => Style::Bar,
        ActivityType::Builds => Style::Bar,
        ActivityType::FileTransfer => Style::Bytes,
        ActivityType::Build => Style::Log,
        _ => Style::Message,
    }
}

/// A count as the renderer takes it: a negative one is read as the
/// unsigned number with the same 64 bits.
pub fn count_of(n: i64) -> (count: u64)
    ensures
        count == spec_count(n),
{
    if n >= 0 {
        n as u64
    } else {
        u64::MAX - ((-(n + 1)) as u64)
    }
}

/// The commands of a message: it is printed where its level is `Error` or
/// a more severe one and it does not begin with `linking `.
pub fn message_commands(level: Verbosity, text: String) -> (commands: Vec<RenderCommand>)
    ensures
        commands_view(commands@) == spec_message(level, text@),
        commands@.len() == 1 <==> spec_message_shown(level, text@),
        commands@.len() <= 1,
{
    let mut commands: Vec<RenderCommand> = Vec::new();
    if level.at_least(Verbosity::Error) && !has_prefix(text.as_str(), "linking ") {
        commands.push(RenderCommand::Println { text });
    }
    assert(commands_view(commands@) =~= spec_message(level, text@));
    commands
}

fn line_command(head: &str, rest: &str) -> (commands: Vec<RenderCommand>)
    ensures
        commands_view(commands@) == seq![CommandView::Println { text: head@ + rest@ }],
{
    let mut text = head.to_owned();
    text.append(rest);
    let mut commands: Vec<RenderCommand> = Vec::new();
    commands.push(RenderCommand::Println { text });
    assert(commands_view(commands@) =~= seq![CommandView::Println { text: head@ + rest@ }]);
    commands
}

impl Tracker {
    /// A tracker without any activity.
    pub fn new() -> (tracker: Tracker)
        ensures
            tracker@ == TrackerView::empty(),
            tracker@.wf(),
    {
        let tracker = Tracker {
            activities: HashMap::new(),
            copy_parent: None,
            build_parent: None,
        };
        assert(tracker@.activities =~= Map::<i64, TrackedView>::empty());
        tracker
    }

    /// Whether the activity `id` is running.
    pub fn is_live(&self, id: i64) -> (r: bool)
        ensures
            r == self@.is_live(id),
    {
        self.activities.contains_key(&id)
    }

    /// What is kept of the activity `id`, where it is running.
    pub fn get(&self, id: i64) -> (r: Option<&TrackedActivity>)
        ensures
            r is Some <==> self@.is_live(id),
            r matches Some(entry) ==> entry@ == self@.activities[id],
    {
        self.activities.get(&id)
    }

    /// The activity that stands for the group of copies, if one was started
    /// and has not stopped since.
    pub fn copy_parent(&self) -> (r: Option<i64>)
        ensures
            r == self@.copy_parent,
    {
        self.copy_parent
    }

    /// The activity that stands for the group of builds, if one was started
    /// and has not stopped since.
    pub fn build_parent(&self) -> (r: Option<i64>)
        ensures
            r == self@.build_parent,
    {
        self.build_parent
    }

    /// The running activity that stands for the group of `link`, if there
    /// is one.
    pub fn parent(&self, link: ParentLink) -> (r: Option<i64>)
        ensures
            r == self@.parent(link),
    {
        let noted = match link {
            ParentLink::TopLevel => None,
            ParentLink::CopyGroup => self.copy_parent,
            ParentLink::BuildGroup => self.build_parent,
        };
        match noted {
            Some(id) => if self.activities.contains_key(&id) {
                Some(id)
            } else {
                None
            },
            None => None,
        }
    }

    /// Handles the start of the activity `id`.
    ///
    /// A start for a running id changes nothing and gives the one line that
    /// reports it.  Any other start is kept and gives the command that
    /// makes its target and, where the activity starts visible, the command
    /// that attaches it.
    pub fn start(&mut self, id: i64, text: String, activity: Activity) -> (commands: Vec<
        RenderCommand,
    >)
        ensures
            final(self)@ == spec_start(old(self)@, id, text@, activity@).state,
            commands_view(commands@) == spec_start(old(self)@, id, text@, activity@).commands,
            old(self)@.wf() ==> final(self)@.wf(),
    {
        if self.activities.contains_key(&id) {
            return line_command("Duplicate id ", decimal(id).as_str());
        }
        let ghost shape = activity@;
        let ghost first = text@;
        let kind = activity.to_type();
        let link = link_of(kind);
        let after = self.parent(link);
        let visible = match kind {
            ActivityType::FileTransfer => false,
            _ => true,
        };
        let (label, shown, name): (String, String, String) = match activity {
            Activity::CopyPaths => ("Downloading".to_owned(), text, String::new()),
            Activity::Builds => ("Building".to_owned(), text, String::new()),
            Activity::CopyPath { path, .. } => (store_path_base(path.as_str()), text, String::new()),
            Activity::FileTransfer { uri } => (String::new(), uri, String::new()),
            Activity::Realise => (String::new(), "Realising paths".to_owned(), String::new()),
            Activity::Build { path, .. } => {
                let name = store_path_base(path.as_str());
                (name.clone(), text, name)
            },
            _ => (String::new(), text, String::new()),
        };
        assert(label@ == spec_label(shape));
        assert(shown@ == spec_first_text(shape, first));
        assert(name@ == spec_name(shape));
        let mut commands: Vec<RenderCommand> = Vec::new();
        commands.push(
            RenderCommand::Create { id, style: style_of(kind), label, text: shown, visible },
        );
        if visible {
            commands.push(RenderCommand::Attach { id, after });
        }
        self.activities.insert(id, TrackedActivity { kind, name, link, visible });
        match kind {
            ActivityType::CopyPaths => {
                self.copy_parent = Some(id);
            },
            ActivityType::Builds => {
                self.build_parent = Some(id);
            },
            _ => {},
        }
        proof {
            let step = spec_start(old(self)@, id, first, shape);
            assert(self@.activities =~= step.state.activities);
            assert(commands_view(commands@) =~= step.commands);
        }
        commands
    }

    /// Handles an update to the activity `id`.  `cleaned` is the log line
    /// of the update without its escape sequences, where the update is a
    /// log line and that text could be made: see [`clean_log_line`].
    ///
    /// An update for an id that is not running changes nothing and gives
    /// the one line that reports it.  Any other update gives a tick and the
    /// commands of its kind; progress with something done makes a hidden
    /// activity visible, and nothing else changes the state.
    pub fn update(&mut self, id: i64, result: LogResult, cleaned: Option<String>) -> (commands: Vec<
        RenderCommand,
    >)
        ensures
            final(self)@ == spec_update(old(self)@, id, result@, option_text(cleaned)).state,
            commands_view(commands@) == spec_update(
                old(self)@,
                id,
                result@,
                option_text(cleaned),
            ).commands,
            old(self)@.wf() ==> final(self)@.wf(),
    {
        let (kind, name, link, visible) = match self.activities.get(&id) {
            Some(entry) => (entry.kind, entry.name.clone(), entry.link, entry.visible),
            None => {
                return line_command("Missing id ", decimal(id).as_str());
            },
        };
        let ghost before = self@;
        let ghost step = spec_update(before, id, result@, option_text(cleaned));
        let mut commands: Vec<RenderCommand> = Vec::new();
        commands.push(RenderCommand::Tick { id });
        match result {
            LogResult::BuildLogLine { .. } | LogResult::PostBuildLogLine { .. } => {
                match cleaned {
                    Some(text) => {
                        commands.push(RenderCommand::SetMessage { id, text });
                    },
                    None => {},
                }
            },
            LogResult::SetPhase { phase } => {
                let mut label = name;
                label.append(" (");
                label.append(phase.as_str());
                label.append(")");
                commands.push(RenderCommand::SetLabel { id, text: label });
            },
            LogResult::Progress { done, expected, .. } => {
                commands.push(RenderCommand::SetTotal { id, total: count_of(expected) });
                commands.push(RenderCommand::SetPosition { id, position: count_of(done) });
                if !visible && done > 0 {
                    let after = self.parent(link);
                    commands.push(RenderCommand::Detach { id });
                    commands.push(RenderCommand::Attach { id, after });
                    self.activities.insert(id, TrackedActivity { kind, name, link, visible: true });
                }
            },
            _ => {},
        }
        proof {
            assert(self@.activities =~= step.state.activities);
            assert(commands_view(commands@) =~= step.commands);
        }
        commands
    }

    /// Handles the end of the activity `id`.
    ///
    /// An end for an id that is not running changes nothing and gives no
    /// command.  Any other end forgets the activity and gives the command
    /// that finishes and removes its target.
    pub fn stop(&mut self, id: i64) -> (commands: Vec<RenderCommand>)
        ensures
            final(self)@ == spec_stop(old(self)@, id).state,
            commands_view(commands@) == spec_stop(old(self)@, id).commands,
            old(self)@.wf() ==> final(self)@.wf(),
    {
        let mut commands: Vec<RenderCommand> = Vec::new();
        match self.activities.remove(&id) {
            Some(_) => {
                match self.copy_parent {
                    Some(parent) => if parent == id {
                        self.copy_parent = None;
                    },
                    None => {},
                }
                match self.build_parent {
                    Some(parent) => if parent == id {
                        self.build_parent = None;
                    },
                    None => {},
                }
                commands.push(RenderCommand::FinishAndRemove { id });
            },
            None => {},
        }
        proof {
            let step = spec_stop(old(self)@, id);
            assert(self@.activities =~= step.state.activities);
            assert(commands_view(commands@) =~= step.commands);
        }
        commands
    }

    /// Handles one item, given the line that it was decoded from and, for
    /// an update that is a log line, that line without its escape
    /// sequences.
    pub fn apply_cleaned(&mut self, item: LogItem, line: &str, cleaned: Option<String>) -> (commands:
        Vec<RenderCommand>)
        ensures
            final(self)@ == spec_step(old(self)@, item@, line@, option_text(cleaned)).state,
            commands_view(commands@) == spec_step(
                old(self)@,
                item@,
                line@,
                option_text(cleaned),
            ).commands,
            old(self)@.wf() ==> final(self)@.wf(),
    {
        match item {
            LogItem::Msg { level, msg } => message_commands(level, msg),
            LogItem::Start { id, text, activity, .. } => self.start(id, text, activity),
            LogItem::Result { id, result } => self.update(id, result, cleaned),
            LogItem::Stop { id } => self.stop(id),
            LogItem::OutputLine(text) => {
                let mut commands: Vec<RenderCommand> = Vec::new();
                commands.push(RenderCommand::Println { text });
                assert(commands_view(commands@) =~= seq![CommandView::Println { text: text@ }]);
                commands
            },
            LogItem::UnknownItem(_) => line_command("Unknown message: ", line),
        }
    }

    /// Handles one item, given the line that it was decoded from.  The log
    /// line of an update is cleaned of its escape sequences first.
    pub fn apply(&mut self, item: LogItem, line: &str) -> (commands: Vec<RenderCommand>)
        ensures
            final(self)@ == spec_step(old(self)@, item@, line@, spec_cleaned(item@)).state,
            commands_view(commands@) == spec_step(
                old(self)@,
                item@,
                line@,
                spec_cleaned(item@),
            ).commands,
            old(self)@.wf() ==> final(self)@.wf(),
    {
        let cleaned = match &item {
            LogItem::Result { result: LogResult::BuildLogLine { line }, .. } => clean_log_line(
                line.as_str(),
            ),
            LogItem::Result { result: LogResult::PostBuildLogLine { line }, .. } => clean_log_line(
                line.as_str(),
            ),
            _ => None,
        };
        self.apply_cleaned(item, line, cleaned)
    }

    /// Decodes one line of the log and handles its item.  A line that
    /// cannot be decoded changes nothing and gives the error.
    pub fn process_line(&mut self, line: &str) -> (r: Result<Vec<RenderCommand>, JsonError>)
        ensures
            spec_decoded(line@) matches Ok(item) ==> (r matches Ok(commands) && final(self)@
                == spec_step(old(self)@, item, line@, spec_cleaned(item)).state && commands_view(
                commands@,
            ) == spec_step(old(self)@, item, line@, spec_cleaned(item)).commands),
            spec_decoded(line@) matches Err(error) ==> (r matches Err(reported) && reported@
                == error && final(self)@ == old(self)@),
            old(self)@.wf() ==> final(self)@.wf(),
    {
        match parse_line(line) {
            Ok(item) => Ok(self.apply(item, line)),
            Err(error) => Err(error),
        }
    }
}

/// The view of a text that may be missing.
pub open spec fn option_text(text: Option<String>) -> Option<Seq<char>> {
    match text {
        Some(inner) => Some(inner@),
        None => None,
    }
}

/// What decoding makes of a line.
pub open spec fn spec_decoded(line: Seq<char>) -> Result<LogItemView, JsonErrorView> {
    spec_parse_line(line, json_text_value(spec_payload(line)))
}

} // verus!
