//! The handling of one operation, from the command that triggers it to the
//! publication of its status.
//!
//! Each operation is a unit of work of its own: an [`OperationTask`] owns the
//! snapshot of its entity and its correlation identifier, and shares nothing
//! with the tasks of other operations. A task decides; whoever runs it does
//! what the task asks for — run the routine, upload the log, publish — and
//! hands back what came of it. Many tasks can be run side by side.
//!
//! Within one operation the order is fixed: where a routine's result bears a
//! log, the upload of that log is complete before any message of the result
//! is published. A failed upload is reported and the messages are published
//! all the same: the status matters more than the log. Where the routine
//! fails, the failure is reported and nothing is published.

use crate::entity::{Entity, EntityView};
use crate::error::ConversionError;
use crate::message::{Message, MessageView};
use crate::operation::{
    message_views, routine_of, ExecutionResult, ExecutionResultView, LogCommand, LogCommandView,
    OperationType, OperationTypeView, Routine,
};
use vstd::prelude::*;

verus! {

/// How far the handling of an operation has come.
#[derive(Debug, Clone, Copy, PartialEq, Eq, Structural)]
pub enum Stage {
    /// Nothing has been asked for yet.
    Ready,
    /// The routine runs; its result is awaited.
    Executing,
    /// The log is being uploaded; the messages are held back meanwhile.
    Uploading,
    /// Nothing is left to do.
    Finished,
}

/// What came of the work that a task asked for.
#[derive(Debug)]
pub enum Event {
    /// The task has been given a unit of concurrency of its own.
    Started,
    /// The routine has ended, with its result or with a failure.
    RoutineFinished(Result<ExecutionResult, ConversionError>),
    /// The upload of the log has ended.
    LogUploaded(Result<(), ConversionError>),
}

/// The mathematical content of an [`Event`]. Of a failure only the text counts.
pub enum EventView {
    Started,
    RoutineFinished(Result<ExecutionResultView, Seq<char>>),
    LogUploaded(Result<(), Seq<char>>),
}

impl View for Event {
    type V = EventView;

    open spec fn view(&self) -> EventView {
        match self {
            Event::Started => EventView::Started,
            Event::RoutineFinished(Ok(result)) => EventView::RoutineFinished(Ok(result@)),
            Event::RoutineFinished(Err(error)) => EventView::RoutineFinished(Err(error.text())),
            Event::LogUploaded(Ok(_)) => EventView::LogUploaded(Ok(())),
            Event::LogUploaded(Err(error)) => EventView::LogUploaded(Err(error.text())),
        }
    }
}

/// The request to upload the log of an operation.
#[derive(Debug)]
pub struct LogUpload {
    pub external_id: String,
    pub cmd_id: String,
    pub operation: OperationType,
    pub command: LogCommand,
}

/// The mathematical content of a [`LogUpload`].
pub struct LogUploadView {
    pub external_id: Seq<char>,
    pub cmd_id: Seq<char>,
    pub operation: OperationTypeView,
    pub command: LogCommandView,
}

impl View for LogUpload {
    type V = LogUploadView;

    open spec fn view(&self) -> LogUploadView {
        LogUploadView {
            external_id: self.external_id@,
            cmd_id: self.cmd_id@,
            operation: self.operation@,
            command: self.command@,
        }
    }
}

/// What a task asks its runner to do.
#[derive(Debug)]
pub enum Action {
    /// Run this routine for the task's entity, correlation identifier and
    /// triggering message, and hand back [`Event::RoutineFinished`].
    Execute(Routine),
    /// Upload the log, and hand back [`Event::LogUploaded`] once that is done.
    UploadLog(LogUpload),
    /// Record this text as an error.
    Report(String),
    /// Publish these messages on the bus, in this order.
    Publish(Vec<Message>),
}

/// The mathematical content of an [`Action`].
pub enum ActionView {
    Execute(Routine),
    UploadLog(LogUploadView),
    Report(Seq<char>),
    Publish(Seq<MessageView>),
}

impl View for Action {
    type V = ActionView;

    open spec fn view(&self) -> ActionView {
        match self {
            Action::Execute(routine) => ActionView::Execute(*routine),
            Action::UploadLog(upload) => ActionView::UploadLog(upload@),
            Action::Report(text) => ActionView::Report(text@),
            Action::Publish(messages) => ActionView::Publish(message_views(messages@)),
        }
    }
}

/// The contents of a list of actions, in the same order.
pub open spec fn action_views(actions: Seq<Action>) -> Seq<ActionView> {
    actions.map_values(|a: Action| a@)
}

/// The mathematical content of an [`OperationTask`].
pub struct TaskView {
    pub operation: OperationTypeView,
    pub entity: EntityView,
    pub cmd_id: Seq<char>,
    pub message: MessageView,
    pub stage: Stage,
    /// The messages held back while the log is uploaded; empty at every
    /// other stage.
    pub held: Seq<MessageView>,
}

impl TaskView {
    /// The same operation at `stage`, holding back `held`.
    pub open spec fn at(self, stage: Stage, held: Seq<MessageView>) -> TaskView {
        TaskView { stage, held, ..self }
    }

    /// The same operation with nothing left to do.
    pub open spec fn finished(self) -> TaskView {
        self.at(Stage::Finished, Seq::empty())
    }

    /// The upload that is asked for when the routine hands back `command`.
    pub open spec fn upload_of(self, command: LogCommandView) -> LogUploadView {
        LogUploadView {
            external_id: self.entity.external_id,
            cmd_id: self.cmd_id,
            operation: self.operation,
            command,
        }
    }
}

/// The text that reports a failed upload with the failure text `cause`.
pub open spec fn upload_failure_report(cause: Seq<char>) -> Seq<char> {
    "failed to upload operation logs: "@ + cause
}

/// One step of the handling of an operation: the task after `event`, and what
/// it asks for in response. An event that the task does not await at its
/// stage changes nothing and asks for nothing.
pub open spec fn step(task: TaskView, event: EventView) -> (TaskView, Seq<ActionView>) {
    match (task.stage, event) {
        (Stage::Ready, EventView::Started) => match routine_of(task.operation) {
            Some(routine) => (
                task.at(Stage::Executing, Seq::empty()),
                seq![ActionView::Execute(routine)],
            ),
            None => (task.finished(), Seq::empty()),
        },
        (Stage::Executing, EventView::RoutineFinished(Ok(result))) => {
            if result.bears_log() {
                (
                    task.at(Stage::Uploading, result.messages),
                    seq![ActionView::UploadLog(task.upload_of(result.command->0))],
                )
            } else if result.messages.len() > 0 {
                (task.finished(), seq![ActionView::Publish(result.messages)])
            } else {
                (task.finished(), Seq::empty())
            }
        },
        (Stage::Executing, EventView::RoutineFinished(Err(cause))) => (
            task.finished(),
            seq![ActionView::Report(cause)],
        ),
        (Stage::Uploading, EventView::LogUploaded(Ok(_))) => (
            task.finished(),
            seq![ActionView::Publish(task.held)],
        ),
        (Stage::Uploading, EventView::LogUploaded(Err(cause))) => (
            task.finished(),
            seq![
                ActionView::Report(upload_failure_report(cause)),
                ActionView::Publish(task.held),
            ],
        ),
        _ => (task, Seq::empty()),
    }
}

/// The handling of one operation.
#[derive(Debug)]
pub struct OperationTask {
    operation: OperationType,
    entity: Entity,
    cmd_id: String,
    message: Message,
    stage: Stage,
    held: Vec<Message>,
}

impl View for OperationTask {
    type V = TaskView;

    closed spec fn view(&self) -> TaskView {
        TaskView {
            operation: self.operation@,
            entity: self.entity@,
            cmd_id: self.cmd_id@,
            message: self.message@,
            stage: self.stage,
            held: message_views(self.held@),
        }
    }
}

impl OperationTask {
    /// The kind of operation that is handled.
    pub fn operation(&self) -> (operation: &OperationType)
        ensures
            operation@ == self@.operation,
    {
        &self.operation
    }

    /// The entity that the operation targets.
    pub fn entity(&self) -> (entity: &Entity)
        ensures
            entity@ == self@.entity,
    {
        &self.entity
    }

    /// The correlation identifier of the operation.
    pub fn cmd_id(&self) -> (cmd_id: &str)
        ensures
            cmd_id@ == self@.cmd_id,
    {
        self.cmd_id.as_str()
    }

    /// The message that triggered the operation.
    pub fn message(&self) -> (message: &Message)
        ensures
            message@ == self@.message,
    {
        &self.message
    }

    /// How far the handling has come.
    pub fn stage(&self) -> (stage: Stage)
        ensures
            stage == self@.stage,
    {
        self.stage
    }

    /// Takes one step: moves on as `event` demands, and returns what is to be
    /// done in response, in the order in which it is to be done.
    pub fn step(&mut self, event: Event) -> (actions: Vec<Action>)
        ensures
            final(self)@ == step(old(self)@, event@).0,
            action_views(actions@) == step(old(self)@, event@).1,
    {
        let ghost before = self@;
        let mut actions: Vec<Action> = Vec::new();
        match self.stage {
            Stage::Ready => match event {
                Event::Started => match self.operation.routine() {
                    Some(routine) => {
                        self.stage = Stage::Executing;
                        self.held = Vec::new();
                        actions.push(Action::Execute(routine));
                    },
                    None => {
                        self.stage = Stage::Finished;
                        self.held = Vec::new();
                    },
                },
                _ => {},
            },
            Stage::Executing => match event {
                Event::RoutineFinished(Ok(result)) => {
                    let ExecutionResult { messages, command } = result;
                    if messages.len() == 0 {
                        self.stage = Stage::Finished;
                        self.held = Vec::new();
                    } else {
                        match command {
                            Some(command) => {
                                let upload = LogUpload {
                                    external_id: self.entity.external_id.clone(),
                                    cmd_id: self.cmd_id.clone(),
                                    operation: self.operation.clone(),
                                    command,
                                };
                                self.stage = Stage::Uploading;
                                self.held = messages;
                                actions.push(Action::UploadLog(upload));
                            },
                            None => {
                                self.stage = Stage::Finished;
                                self.held = Vec::new();
                                actions.push(Action::Publish(messages));
                            },
                        }
                    }
                },
                Event::RoutineFinished(Err(error)) => {
                    self.stage = Stage::Finished;
                    self.held = Vec::new();
                    actions.push(Action::Report(error.message()));
                },
                _ => {},
            },
            Stage::Uploading => match event {
                Event::LogUploaded(outcome) => {
                    let mut messages: Vec<Message> = Vec::new();
                    std::mem::swap(&mut self.held, &mut messages);
                    self.stage = Stage::Finished;
                    match outcome {
                        Ok(_) => {},
                        Err(error) => {
                            let mut report = String::from_str("failed to upload operation logs: ");
                            report.append(error.message().as_str());
                            actions.push(Action::Report(report));
                        },
                    }
                    actions.push(Action::Publish(messages));
                },
                _ => {},
            },
            Stage::Finished => {},
        }
        proof {
            assert(message_views(Seq::<Message>::empty()) =~= Seq::empty());
            assert(self@ == step(before, event@).0);
            assert(action_views(actions@) =~= step(before, event@).1);
        }
        actions
    }
}

/// Starts the handling of operations.
#[derive(Debug, Clone, Copy)]
pub struct OperationHandler {}

impl OperationHandler {
    /// Makes a handler.
    pub fn new() -> OperationHandler {
        OperationHandler {  }
    }

    /// Makes the unit of work that handles one operation: `operation` for
    /// `entity`, under the correlation identifier `cmd_id`, triggered by
    /// `message`. Nothing is run here and nothing is waited for: the caller
    /// gives the task a unit of concurrency of its own and goes on.
    pub fn handle_operation(
        &self,
        operation: OperationType,
        entity: Entity,
        cmd_id: &str,
        message: Message,
    ) -> (task: OperationTask)
        ensures
            task@ == (TaskView {
                operation: operation@,
                entity: entity@,
                cmd_id: cmd_id@,
                message: message@,
                stage: Stage::Ready,
                held: Seq::empty(),
            }),
    {
        let task = OperationTask {
            operation,
            entity,
            cmd_id: String::from_str(cmd_id),
            message,
            stage: Stage::Ready,
            held: Vec::new(),
        };
        proof {
            assert(message_views(Seq::<Message>::empty()) =~= Seq::empty());
        }
        task
    }
}

} // verus!
