//! Laws of the life of an activity in the tracker: from its start over its
//! updates to its end.

use crate::log_item::{ActivityType, ActivityView, LogItemView, LogResultView, Verbosity};
use crate::text::spec_has_prefix;
use crate::tracker::{
    spec_duplicate_line, spec_entry, spec_message, spec_message_shown, spec_missing_line,
    spec_promotes, spec_start, spec_starts_visible, spec_step, spec_stop, spec_update,
    CommandView, ParentLink, Step, TrackerView,
};
use vstd::prelude::*;

verus! {

/// Whether a list of commands attaches the target `id` to the display.
pub open spec fn spec_attaches(commands: Seq<CommandView>, id: i64) -> bool {
    exists|i: int|
        0 <= i < commands.len() && (#[trigger] commands[i]) is Attach
            && commands[i]->Attach_id == id
}

/// The number of lines that a list of commands prints.
pub open spec fn spec_printed(commands: Seq<CommandView>) -> nat
    decreases commands.len(),
{
    if commands.len() == 0 {
        0
    } else if commands.last() is Println {
        spec_printed(commands.drop_last()) + 1
    } else {
        spec_printed(commands.drop_last())
    }
}

/// An activity that has started, been updated and stopped leaves its id
/// free: the activities are those from before the start, and a later start
/// with the same id is accepted like a first one.
pub proof fn lemma_id_is_free_after_stop(
    state: TrackerView,
    id: i64,
    text: Seq<char>,
    activity: ActivityView,
    result: LogResultView,
    cleaned: Option<Seq<char>>,
    next_text: Seq<char>,
    next_activity: ActivityView,
)
    requires
        !state.is_live(id),
    ensures
        ({
            let started = spec_start(state, id, text, activity).state;
            let updated = spec_update(started, id, result, cleaned).state;
            let stopped = spec_stop(updated, id).state;
            let again = spec_start(stopped, id, next_text, next_activity);
            &&& started.is_live(id)
            &&& updated.is_live(id)
            &&& !stopped.is_live(id)
            &&& stopped.activities == state.activities
            &&& again.state.is_live(id)
            &&& again.state.activities[id] == spec_entry(next_activity)
            &&& again.commands[0] is Create
            &&& spec_printed(again.commands) == 0
        }),
{
    let started = spec_start(state, id, text, activity).state;
    let updated = spec_update(started, id, result, cleaned).state;
    let stopped = spec_stop(updated, id).state;
    let again = spec_start(stopped, id, next_text, next_activity);
    assert(stopped.activities =~= state.activities);
    reveal_with_fuel(spec_printed, 3);
    if spec_starts_visible(next_activity.kind()) {
        assert(again.commands.drop_last().drop_last() =~= Seq::<CommandView>::empty());
    } else {
        assert(again.commands.drop_last() =~= Seq::<CommandView>::empty());
    }
}

/// A start for an id that is running changes nothing and prints one line:
/// what is kept of the activity is what its first start gave.
pub proof fn lemma_duplicate_start(
    state: TrackerView,
    id: i64,
    text: Seq<char>,
    activity: ActivityView,
)
    requires
        state.is_live(id),
    ensures
        spec_start(state, id, text, activity).state == state,
        spec_start(state, id, text, activity).commands == seq![
            CommandView::Println { text: spec_duplicate_line(id) },
        ],
        spec_printed(spec_start(state, id, text, activity).commands) == 1,
{
    reveal_with_fuel(spec_printed, 2);
    let commands = spec_start(state, id, text, activity).commands;
    assert(commands.drop_last() =~= Seq::<CommandView>::empty());
}

/// Of two starts with one id in a row, the second changes nothing: the
/// entry of the id is the one that the first start made.
pub proof fn lemma_first_start_wins(
    state: TrackerView,
    id: i64,
    text: Seq<char>,
    activity: ActivityView,
    next_text: Seq<char>,
    next_activity: ActivityView,
)
    requires
        !state.is_live(id),
    ensures
        ({
            let first = spec_start(state, id, text, activity).state;
            let second = spec_start(first, id, next_text, next_activity);
            &&& second.state == first
            &&& second.state.activities[id] == spec_entry(activity)
            &&& spec_printed(second.commands) == 1
        }),
{
    lemma_duplicate_start(spec_start(state, id, text, activity).state, id, next_text, next_activity);
}

/// A start attaches its target exactly where the activity starts visible,
/// which every kind but a file transfer does.
pub proof fn lemma_start_attaches(
    state: TrackerView,
    id: i64,
    text: Seq<char>,
    activity: ActivityView,
)
    requires
        !state.is_live(id),
    ensures
        ({
            let step = spec_start(state, id, text, activity);
            &&& spec_attaches(step.commands, id) <==> activity.kind() != ActivityType::FileTransfer
            &&& step.state.activities[id].visible <==> activity.kind()
                != ActivityType::FileTransfer
        }),
{
    let step = spec_start(state, id, text, activity);
    if activity.kind() != ActivityType::FileTransfer {
        assert(step.commands[1] is Attach);
    }
}

/// An update attaches the target of a running activity exactly where the
/// activity is hidden and the update is progress with something done; the
/// activity is visible afterwards where it was before or was attached now.
/// So a hidden file transfer stays hidden under every other update, progress
/// with nothing done among them.
pub proof fn lemma_update_attaches(
    state: TrackerView,
    id: i64,
    result: LogResultView,
    cleaned: Option<Seq<char>>,
)
    requires
        state.is_live(id),
    ensures
        ({
            let step = spec_update(state, id, result, cleaned);
            let shown = !state.activities[id].visible && (result matches LogResultView::Progress {
                done,
                ..
            } && done > 0);
            &&& spec_attaches(step.commands, id) <==> shown
            &&& step.state.activities[id].visible <==> state.activities[id].visible || shown
            &&& !shown ==> step.state == state
            &&& step.state.activities.dom() == state.activities.dom()
        }),
{
    let step = spec_update(state, id, result, cleaned);
    if spec_promotes(state.activities[id], result) {
        assert(step.commands[4] is Attach);
        assert(step.state.activities.dom() =~= state.activities.dom());
    }
}

/// An update for an id that is not running changes nothing and prints one
/// line.
pub proof fn lemma_orphan_update(
    state: TrackerView,
    id: i64,
    result: LogResultView,
    cleaned: Option<Seq<char>>,
)
    requires
        !state.is_live(id),
    ensures
        spec_update(state, id, result, cleaned).state == state,
        spec_update(state, id, result, cleaned).commands == seq![
            CommandView::Println { text: spec_missing_line(id) },
        ],
        spec_printed(spec_update(state, id, result, cleaned).commands) == 1,
{
    reveal_with_fuel(spec_printed, 2);
    let commands = spec_update(state, id, result, cleaned).commands;
    assert(commands.drop_last() =~= Seq::<CommandView>::empty());
}

/// An end for an id that is not running changes nothing and gives no
/// command.
pub proof fn lemma_orphan_stop(state: TrackerView, id: i64)
    requires
        !state.is_live(id),
    ensures
        spec_stop(state, id).state == state,
        spec_stop(state, id).commands == Seq::<CommandView>::empty(),
{
}

/// A message is printed exactly where its level is `Error` and it does not
/// begin with `linking `: no level is more severe than `Error`.
pub proof fn lemma_message_filter(level: Verbosity, text: Seq<char>)
    ensures
        spec_message_shown(level, text) <==> level == Verbosity::Error && !spec_has_prefix(
            text,
            "linking "@,
        ),
        spec_message_shown(level, text) ==> spec_message(level, text) == seq![
            CommandView::Println { text },
        ],
        !spec_message_shown(level, text) ==> spec_message(level, text) == Seq::<
            CommandView,
        >::empty(),
{
}

/// Only a start adds a running activity and only a stop takes one away.
pub proof fn lemma_step_domain(
    state: TrackerView,
    item: LogItemView,
    line: Seq<char>,
    cleaned: Option<Seq<char>>,
)
    ensures
        spec_step(state, item, line, cleaned).state.activities.dom() == match item {
            LogItemView::Start { id, .. } => state.activities.dom().insert(id),
            LogItemView::Stop { id } => state.activities.dom().remove(id),
            _ => state.activities.dom(),
        },
{
    let after = spec_step(state, item, line, cleaned).state.activities.dom();
    match item {
        LogItemView::Start { id, .. } => {
            assert(after =~= state.activities.dom().insert(id));
        },
        LogItemView::Stop { id } => {
            assert(after =~= state.activities.dom().remove(id));
        },
        _ => {
            assert(after =~= state.activities.dom());
        },
    }
}

/// Every step keeps the notes of the groups in order: the activity noted
/// for a group is running and is of the kind that stands for the group.
pub proof fn lemma_step_keeps_wf(
    state: TrackerView,
    item: LogItemView,
    line: Seq<char>,
    cleaned: Option<Seq<char>>,
)
    requires
        state.wf(),
    ensures
        spec_step(state, item, line, cleaned).state.wf(),
{
}

/// In a state whose notes are in order, the parent of a group is the
/// activity noted for it.
pub proof fn lemma_parent_is_noted(state: TrackerView)
    requires
        state.wf(),
    ensures
        state.parent(ParentLink::TopLevel) is None,
        state.parent(ParentLink::CopyGroup) == state.copy_parent,
        state.parent(ParentLink::BuildGroup) == state.build_parent,
        TrackerView::empty().wf(),
{
}

/// The target that a command names, if it names one.
pub open spec fn spec_target(command: CommandView) -> Option<i64> {
    match command {
        CommandView::Create { id, .. } => Some(id),
        CommandView::Attach { id, .. } => Some(id),
        CommandView::Detach { id } => Some(id),
        CommandView::SetMessage { id, .. } => Some(id),
        CommandView::SetLabel { id, .. } => Some(id),
        CommandView::SetTotal { id, .. } => Some(id),
        CommandView::SetPosition { id, .. } => Some(id),
        CommandView::Tick { id } => Some(id),
        CommandView::FinishAndRemove { id } => Some(id),
        CommandView::Println { .. } => None,
    }
}

/// The activity that an item is about, if it is about one.
pub open spec fn spec_subject(item: LogItemView) -> Option<i64> {
    match item {
        LogItemView::Start { id, .. } => Some(id),
        LogItemView::Result { id, .. } => Some(id),
        LogItemView::Stop { id } => Some(id),
        _ => None,
    }
}

/// The commands of a step name no target but that of the item's activity.
/// A target is made only for an activity that starts, and every other
/// command names an activity that was running before the step or has
/// started with it.
pub proof fn lemma_commands_name_the_subject(
    state: TrackerView,
    item: LogItemView,
    line: Seq<char>,
    cleaned: Option<Seq<char>>,
    i: int,
)
    requires
        0 <= i < spec_step(state, item, line, cleaned).commands.len(),
    ensures
        ({
            let step = spec_step(state, item, line, cleaned);
            let command = step.commands[i];
            &&& spec_target(command) matches Some(id) ==> spec_subject(item) == Some(id)
            &&& command is Create ==> item is Start && i == 0 && !state.is_live(
                command->Create_id,
            )
            &&& spec_target(command) matches Some(id) ==> state.is_live(id) || step.state.is_live(
                id,
            )
        }),
{
}

/// In a state that is in order, a target is attached behind nothing or
/// behind the target of another activity that is running and visible.
pub proof fn lemma_attach_behind_visible(
    state: TrackerView,
    item: LogItemView,
    line: Seq<char>,
    cleaned: Option<Seq<char>>,
    i: int,
)
    requires
        state.wf(),
        0 <= i < spec_step(state, item, line, cleaned).commands.len(),
        spec_step(state, item, line, cleaned).commands[i] is Attach,
    ensures
        ({
            let command = spec_step(state, item, line, cleaned).commands[i];
            command->Attach_after matches Some(parent) ==> parent != command->Attach_id
                && state.is_live(parent) && state.activities[parent].visible
        }),
{
}

/// A step that is not about the activity `id` leaves it as it is: running
/// or not, and kept as before.
pub proof fn lemma_step_keeps_others(
    state: TrackerView,
    item: LogItemView,
    line: Seq<char>,
    cleaned: Option<Seq<char>>,
    id: i64,
)
    requires
        spec_subject(item) != Some(id),
    ensures
        ({
            let step = spec_step(state, item, line, cleaned);
            &&& step.state.is_live(id) == state.is_live(id)
            &&& state.is_live(id) ==> step.state.activities[id] == state.activities[id]
            &&& !spec_attaches(step.commands, id)
        }),
{
    let step = spec_step(state, item, line, cleaned);
    assert forall|i: int| 0 <= i < step.commands.len() implies !(step.commands[i] is Attach
        && step.commands[i]->Attach_id == id) by {
        lemma_commands_name_the_subject(state, item, line, cleaned, i);
    }
}

/// One item with what belongs to it: the line that it was decoded from and,
/// for a log line, that line without its escape sequences.
pub struct Event {
    pub item: LogItemView,
    pub line: Seq<char>,
    pub cleaned: Option<Seq<char>>,
}

/// The state after a run of events, and all the commands of the run in
/// their order.
pub open spec fn spec_run(state: TrackerView, events: Seq<Event>) -> Step
    decreases events.len(),
{
    if events.len() == 0 {
        Step { state, commands: Seq::empty() }
    } else {
        let before = spec_run(state, events.drop_last());
        let event = events.last();
        let step = spec_step(before.state, event.item, event.line, event.cleaned);
        Step { state: step.state, commands: before.commands + step.commands }
    }
}

/// Whether an event leaves a hidden activity `id` hidden: it is about
/// another activity or about none, or it is an update to `id` other than
/// progress with something done.
pub open spec fn spec_leaves_hidden(event: Event, id: i64) -> bool {
    spec_subject(event.item) == Some(id) ==> (event.item matches LogItemView::Result {
        result,
        ..
    } && !(result matches LogResultView::Progress { done, .. } && done > 0))
}

/// A run of events keeps a state in order.
pub proof fn lemma_run_keeps_wf(state: TrackerView, events: Seq<Event>)
    requires
        state.wf(),
    ensures
        spec_run(state, events).state.wf(),
    decreases events.len(),
{
    if events.len() > 0 {
        lemma_run_keeps_wf(state, events.drop_last());
        let before = spec_run(state, events.drop_last());
        let event = events.last();
        lemma_step_keeps_wf(before.state, event.item, event.line, event.cleaned);
    }
}

/// A hidden activity stays hidden, and its target is not attached, over
/// every run of events of which none is progress of that activity with
/// something done, nor its end, nor a start with its id.
pub proof fn lemma_hidden_until_progress(state: TrackerView, id: i64, events: Seq<Event>)
    requires
        state.is_live(id),
        !state.activities[id].visible,
        forall|k: int| 0 <= k < events.len() ==> spec_leaves_hidden(#[trigger] events[k], id),
    ensures
        spec_run(state, events).state.is_live(id),
        spec_run(state, events).state.activities[id] == state.activities[id],
        !spec_attaches(spec_run(state, events).commands, id),
    decreases events.len(),
{
    if events.len() > 0 {
        let earlier = events.drop_last();
        assert forall|k: int| 0 <= k < earlier.len() implies spec_leaves_hidden(
            #[trigger] earlier[k],
            id,
        ) by {
            assert(earlier[k] == events[k]);
        }
        lemma_hidden_until_progress(state, id, earlier);
        let before = spec_run(state, earlier);
        let event = events.last();
        assert(spec_leaves_hidden(events[events.len() - 1], id));
        let step = spec_step(before.state, event.item, event.line, event.cleaned);
        if spec_subject(event.item) == Some(id) {
            lemma_update_attaches(before.state, id, event.item->Result_result, event.cleaned);
        } else {
            lemma_step_keeps_others(before.state, event.item, event.line, event.cleaned, id);
        }
        let all = before.commands + step.commands;
        assert forall|i: int| 0 <= i < all.len() implies !((#[trigger] all[i]) is Attach
            && all[i]->Attach_id == id) by {
            if i < before.commands.len() {
                assert(all[i] == before.commands[i]);
            } else {
                assert(all[i] == step.commands[i - before.commands.len()]);
            }
        }
    }
}

} // verus!
