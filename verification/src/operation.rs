//! Operation kinds, and what the routine for an operation hands back.

use crate::message::{Message, MessageView};
use vstd::prelude::*;

verus! {

/// The kinds of operation that arrive as commands on the local bus.
#[derive(Debug)]
pub enum OperationType {
    Health,
    Custom(String),
    Restart,
    SoftwareList,
    SoftwareUpdate,
    LogUpload,
    ConfigSnapshot,
    ConfigUpdate,
    FirmwareUpdate,
}

/// The mathematical content of an [`OperationType`].
pub enum OperationTypeView {
    Health,
    Custom(Seq<char>),
    Restart,
    SoftwareList,
    SoftwareUpdate,
    LogUpload,
    ConfigSnapshot,
    ConfigUpdate,
    FirmwareUpdate,
}

impl View for OperationType {
    type V = OperationTypeView;

    open spec fn view(&self) -> OperationTypeView {
        match self {
            OperationType::Health => OperationTypeView::Health,
            OperationType::Custom(name) => OperationTypeView::Custom(name@),
            OperationType::Restart => OperationTypeView::Restart,
            OperationType::SoftwareList => OperationTypeView::SoftwareList,
            OperationType::SoftwareUpdate => OperationTypeView::SoftwareUpdate,
            OperationType::LogUpload => OperationTypeView::LogUpload,
            OperationType::ConfigSnapshot => OperationTypeView::ConfigSnapshot,
            OperationType::ConfigUpdate => OperationTypeView::ConfigUpdate,
            OperationType::FirmwareUpdate => OperationTypeView::FirmwareUpdate,
        }
    }
}

impl Clone for OperationType {
    fn clone(&self) -> (copy: Self)
        ensures
            copy == *self,
    {
        match self {
            OperationType::Health => OperationType::Health,
            OperationType::Custom(name) => OperationType::Custom(name.clone()),
            OperationType::Restart => OperationType::Restart,
            OperationType::SoftwareList => OperationType::SoftwareList,
            OperationType::SoftwareUpdate => OperationType::SoftwareUpdate,
            OperationType::LogUpload => OperationType::LogUpload,
            OperationType::ConfigSnapshot => OperationType::ConfigSnapshot,
            OperationType::ConfigUpdate => OperationType::ConfigUpdate,
            OperationType::FirmwareUpdate => OperationType::FirmwareUpdate,
        }
    }
}

/// The routines that carry out operations. Each kind of operation that needs
/// work at this layer has a routine of its own.
#[derive(Debug, Clone, Copy, PartialEq, Eq, Structural)]
pub enum Routine {
    Restart,
    SoftwareList,
    SoftwareUpdate,
    LogUpload,
    ConfigSnapshot,
    ConfigUpdate,
    FirmwareUpdate,
}

/// The routine that carries out operations of kind `operation`. Health checks
/// and custom operations are handled elsewhere: at this layer they succeed at
/// once, with nothing to publish, and have no routine.
pub open spec fn routine_of(operation: OperationTypeView) -> Option<Routine> {
    match operation {
        OperationTypeView::Health => None,
        OperationTypeView::Custom(_) => None,
        OperationTypeView::Restart => Some(Routine::Restart),
        OperationTypeView::SoftwareList => Some(Routine::SoftwareList),
        OperationTypeView::SoftwareUpdate => Some(Routine::SoftwareUpdate),
        OperationTypeView::LogUpload => Some(Routine::LogUpload),
        OperationTypeView::ConfigSnapshot => Some(Routine::ConfigSnapshot),
        OperationTypeView::ConfigUpdate => Some(Routine::ConfigUpdate),
        OperationTypeView::FirmwareUpdate => Some(Routine::FirmwareUpdate),
    }
}

impl OperationType {
    /// Selects the routine that carries out operations of this kind.
    pub fn routine(&self) -> (routine: Option<Routine>)
        ensures
            routine == routine_of(self@),
    {
        match self {
            OperationType::Health => None,
            OperationType::Custom(_) => None,
            OperationType::Restart => Some(Routine::Restart),
            OperationType::SoftwareList => Some(Routine::SoftwareList),
            OperationType::SoftwareUpdate => Some(Routine::SoftwareUpdate),
            OperationType::LogUpload => Some(Routine::LogUpload),
            OperationType::ConfigSnapshot => Some(Routine::ConfigSnapshot),
            OperationType::ConfigUpdate => Some(Routine::ConfigUpdate),
            OperationType::FirmwareUpdate => Some(Routine::FirmwareUpdate),
        }
    }
}

/// The state of a finished command whose execution log is worth keeping.
#[derive(Debug)]
pub struct LogCommand {
    pub topic: String,
    pub status: String,
    pub payload: String,
}

/// The mathematical content of a [`LogCommand`].
pub struct LogCommandView {
    pub topic: Seq<char>,
    pub status: Seq<char>,
    pub payload: Seq<char>,
}

impl View for LogCommand {
    type V = LogCommandView;

    open spec fn view(&self) -> LogCommandView {
        LogCommandView { topic: self.topic@, status: self.status@, payload: self.payload@ }
    }
}

/// What a routine hands back when it succeeds: the messages to publish, in
/// the order in which they are to appear on the bus, and the command whose log
/// is to be uploaded before they do, if there is one.
#[derive(Debug)]
pub struct ExecutionResult {
    pub messages: Vec<Message>,
    pub command: Option<LogCommand>,
}

/// The mathematical content of an [`ExecutionResult`].
pub struct ExecutionResultView {
    pub messages: Seq<MessageView>,
    pub command: Option<LogCommandView>,
}

/// The contents of a list of messages, in the same order.
pub open spec fn message_views(messages: Seq<Message>) -> Seq<MessageView> {
    messages.map_values(|m: Message| m@)
}

impl View for ExecutionResult {
    type V = ExecutionResultView;

    open spec fn view(&self) -> ExecutionResultView {
        ExecutionResultView {
            messages: message_views(self.messages@),
            command: match self.command {
                Some(command) => Some(command@),
                None => None,
            },
        }
    }
}

impl ExecutionResultView {
    /// Whether a log has to be uploaded before the messages are published:
    /// there is a command that bears a log, and there is something to publish.
    pub open spec fn bears_log(self) -> bool {
        self.messages.len() > 0 && self.command is Some
    }
}

} // verus!
