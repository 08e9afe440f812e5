//! What holds of every run of an operation task, whatever events it is
//! handed and in whatever order.

use crate::dispatch::{step, ActionView, EventView, Stage, TaskView};
use crate::message::MessageView;
use vstd::prelude::*;

verus! {

/// The task after it has been handed `events`, one after another.
pub open spec fn after(task: TaskView, events: Seq<EventView>) -> TaskView
    decreases events.len(),
{
    if events.len() == 0 {
        task
    } else {
        step(after(task, events.drop_last()), events.last()).0
    }
}

/// All that the task asks for while it is handed `events`, in the order in
/// which it asks.
pub open spec fn asked(task: TaskView, events: Seq<EventView>) -> Seq<ActionView>
    decreases events.len(),
{
    if events.len() == 0 {
        Seq::empty()
    } else {
        asked(task, events.drop_last()) + step(after(task, events.drop_last()), events.last()).1
    }
}

/// What the task asks for in response to the event at position `n` of `events`.
pub open spec fn asked_at(task: TaskView, events: Seq<EventView>, n: int) -> Seq<ActionView>
    recommends
        0 <= n < events.len(),
{
    step(after(task, events.take(n)), events[n]).1
}

/// A finished task stays as it is and asks for nothing more, whatever it is
/// handed: what an operation publishes, it publishes once.
pub proof fn lemma_finished_is_final(task: TaskView, events: Seq<EventView>)
    requires
        task.stage == Stage::Finished,
    ensures
        after(task, events) == task,
        asked(task, events) == Seq::<ActionView>::empty(),
    decreases events.len(),
{
    if events.len() > 0 {
        lemma_finished_is_final(task, events.drop_last());
        assert(asked(task, events) =~= Seq::<ActionView>::empty());
    }
}

/// Where the routine fails, the failure is reported and that is all: no
/// message of the operation is published, then or later.
pub proof fn lemma_failure_publishes_nothing(task: TaskView, cause: Seq<char>, later: Seq<EventView>)
    requires
        task.stage == Stage::Executing,
    ensures
        step(task, EventView::RoutineFinished(Err(cause))).1 == seq![ActionView::Report(cause)],
        asked(step(task, EventView::RoutineFinished(Err(cause))).0, later) == Seq::<
            ActionView,
        >::empty(),
{
    lemma_finished_is_final(step(task, EventView::RoutineFinished(Err(cause))).0, later);
}

/// In every run of a task from its start: it publishes at most once, and
/// whenever it asks both for the upload of a log and for a publication, it
/// asks for the upload first.
pub proof fn lemma_upload_is_asked_before_publication(task: TaskView, events: Seq<EventView>)
    requires
        task.stage == Stage::Ready,
    ensures
        forall|i: int, j: int|
            0 <= i < j < asked(task, events).len() ==> !(#[trigger] asked(task, events)[i] is Publish
                && #[trigger] asked(task, events)[j] is Publish),
        forall|i: int, j: int|
            0 <= i < asked(task, events).len() && 0 <= j < asked(task, events).len()
                && #[trigger] asked(task, events)[i] is Publish
                && #[trigger] asked(task, events)[j] is UploadLog ==> j < i,
{
    lemma_actions_by_stage(task, events);
}

/// Nothing is published before the task is finished, and no upload is asked
/// for before the routine has handed back its result.
proof fn lemma_actions_by_stage(task: TaskView, events: Seq<EventView>)
    requires
        task.stage == Stage::Ready,
    ensures
        after(task, events).stage != Stage::Finished ==> forall|i: int|
            0 <= i < asked(task, events).len() ==> !(#[trigger] asked(task, events)[i] is Publish),
        after(task, events).stage == Stage::Ready || after(task, events).stage == Stage::Executing
            ==> forall|i: int|
            0 <= i < asked(task, events).len() ==> !(#[trigger] asked(task, events)[i] is UploadLog),
        forall|i: int, j: int|
            0 <= i < j < asked(task, events).len() ==> !(#[trigger] asked(task, events)[i] is Publish
                && #[trigger] asked(task, events)[j] is Publish),
        forall|i: int, j: int|
            0 <= i < asked(task, events).len() && 0 <= j < asked(task, events).len()
                && #[trigger] asked(task, events)[i] is Publish
                && #[trigger] asked(task, events)[j] is UploadLog ==> j < i,
    decreases events.len(),
{
    if events.len() > 0 {
        let earlier = events.drop_last();
        lemma_actions_by_stage(task, earlier);
        let before = after(task, earlier);
        let so_far = asked(task, earlier);
        let now = step(before, events.last()).1;
        assert(asked(task, events) == so_far + now);
        assert(forall|i: int| 0 <= i < so_far.len() ==> (so_far + now)[i] == so_far[i]);
        assert(forall|i: int|
            so_far.len() <= i < (so_far + now).len() ==> (so_far + now)[i] == now[i - so_far.len()]);
    }
}

/// A publication is of a routine's result, and it waits for the log: the
/// messages that a task publishes are those that its routine handed back, in
/// the routine's order; and where that result bore a log, the task publishes
/// only when it is told that the upload has ended — an upload that it had
/// asked for on receiving the result.
pub proof fn lemma_publication_waits_for_upload(
    task: TaskView,
    events: Seq<EventView>,
    n: int,
    i: int,
    messages: Seq<MessageView>,
)
    requires
        task.stage == Stage::Ready,
        0 <= n < events.len(),
        0 <= i < asked_at(task, events, n).len(),
        asked_at(task, events, n)[i] == ActionView::Publish(messages),
    ensures
        published_at_once(events[n], messages) || (events[n] is LogUploaded && exists|k: int|
            0 <= k < n && #[trigger] upload_requested(task, events, k, messages)),
{
    let before = after(task, events.take(n));
    if before.stage == Stage::Uploading {
        lemma_held_messages_await_upload(task, events, n);
    }
}

/// Whether `event` is a routine's result that bears no log and hands back
/// `messages`, so that they are published without waiting.
pub open spec fn published_at_once(event: EventView, messages: Seq<MessageView>) -> bool {
    &&& event matches EventView::RoutineFinished(Ok(result))
    &&& !result.bears_log()
    &&& result.messages == messages
}

/// Whether the event at position `k` of `events` is a routine's result that
/// bears a log and hands back `messages`, in response to which the task asks
/// for the upload of that log and for nothing else.
pub open spec fn upload_requested(
    task: TaskView,
    events: Seq<EventView>,
    k: int,
    messages: Seq<MessageView>,
) -> bool {
    &&& 0 <= k < events.len()
    &&& events[k] matches EventView::RoutineFinished(Ok(result))
    &&& result.bears_log()
    &&& result.messages == messages
    &&& asked_at(task, events, k) == seq![ActionView::UploadLog(task.upload_of(result.command->0))]
}

/// While a task uploads a log, the messages it holds back are those of a
/// result that it received earlier and answered by asking for the upload.
proof fn lemma_held_messages_await_upload(task: TaskView, events: Seq<EventView>, n: int)
    requires
        task.stage == Stage::Ready,
        0 <= n <= events.len(),
        after(task, events.take(n)).stage == Stage::Uploading,
    ensures
        exists|k: int|
            0 <= k < n && #[trigger] upload_requested(
                task,
                events,
                k,
                after(task, events.take(n)).held,
            ),
    decreases n,
{
    lemma_task_keeps_its_identity(task, events.take(n));
    if n > 0 {
        let earlier = events.take(n - 1);
        assert(events.take(n).drop_last() =~= earlier);
        assert(events.take(n).last() == events[n - 1]);
        let before = after(task, earlier);
        lemma_task_keeps_its_identity(task, earlier);
        if before.stage == Stage::Uploading {
            lemma_held_messages_await_upload(task, events, n - 1);
            let k = choose|k: int|
                0 <= k < n - 1 && #[trigger] upload_requested(task, events, k, before.held);
            assert(upload_requested(task, events, k, after(task, events.take(n)).held));
        } else {
            assert(upload_requested(task, events, n - 1, after(task, events.take(n)).held));
        }
    }
}

/// A task handles one operation from start to end: the kind of operation, the
/// entity and the correlation identifier never change.
pub proof fn lemma_task_keeps_its_identity(task: TaskView, events: Seq<EventView>)
    ensures
        after(task, events).operation == task.operation,
        after(task, events).entity == task.entity,
        after(task, events).cmd_id == task.cmd_id,
        after(task, events).message == task.message,
    decreases events.len(),
{
    if events.len() > 0 {
        lemma_task_keeps_its_identity(task, events.drop_last());
    }
}

/// An event on its way to one of several tasks that run side by side.
pub struct Delivery {
    /// The position of the task in the list of tasks.
    pub task: int,
    pub event: EventView,
}

/// Several tasks after the deliveries of `deliveries` have been made, in that
/// order. A delivery reaches the task it is addressed to and no other; one
/// addressed to no task is lost.
pub open spec fn after_all(tasks: Seq<TaskView>, deliveries: Seq<Delivery>) -> Seq<TaskView>
    decreases deliveries.len(),
{
    if deliveries.len() == 0 {
        tasks
    } else {
        let before = after_all(tasks, deliveries.drop_last());
        let last = deliveries.last();
        if 0 <= last.task < before.len() {
            before.update(last.task, step(before[last.task], last.event).0)
        } else {
            before
        }
    }
}

/// The events among `deliveries` that are addressed to `task`, in order.
pub open spec fn events_of(deliveries: Seq<Delivery>, task: int) -> Seq<EventView>
    decreases deliveries.len(),
{
    if deliveries.len() == 0 {
        Seq::empty()
    } else if deliveries.last().task == task {
        events_of(deliveries.drop_last(), task).push(deliveries.last().event)
    } else {
        events_of(deliveries.drop_last(), task)
    }
}

/// All that `task` asks for while `deliveries` are made to the tasks of
/// `tasks`, in the order in which it asks.
pub open spec fn asked_among(tasks: Seq<TaskView>, deliveries: Seq<Delivery>, task: int) -> Seq<
    ActionView,
>
    decreases deliveries.len(),
{
    if deliveries.len() == 0 {
        Seq::empty()
    } else {
        let before = after_all(tasks, deliveries.drop_last());
        let so_far = asked_among(tasks, deliveries.drop_last(), task);
        let last = deliveries.last();
        if last.task == task && 0 <= task < before.len() {
            so_far + step(before[task], last.event).1
        } else {
            so_far
        }
    }
}

/// Operations that run side by side do not touch each other. However the
/// events of several tasks interleave, each task ends where it would have
/// ended had it run alone on its own events, and asks for the same things in
/// the same order: a routine that fails holds up no other operation, and the
/// messages of one operation stay in their order.
pub proof fn lemma_tasks_run_independently(
    tasks: Seq<TaskView>,
    deliveries: Seq<Delivery>,
    task: int,
)
    requires
        0 <= task < tasks.len(),
    ensures
        after_all(tasks, deliveries).len() == tasks.len(),
        after_all(tasks, deliveries)[task] == after(tasks[task], events_of(deliveries, task)),
        asked_among(tasks, deliveries, task) == asked(tasks[task], events_of(deliveries, task)),
    decreases deliveries.len(),
{
    if deliveries.len() > 0 {
        let earlier = deliveries.drop_last();
        lemma_tasks_run_independently(tasks, earlier, task);
        if deliveries.last().task == task {
            let own = events_of(deliveries, task);
            assert(own.drop_last() =~= events_of(earlier, task));
            assert(own.last() == deliveries.last().event);
        }
    }
}

} // verus!
