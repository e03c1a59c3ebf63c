//! The closed set of domain events a transcript line can yield.

use vstd::prelude::*;

verus! {

/// One recognized transcript event, carrying its owning project.
#[derive(Clone, Debug)]
pub enum ClaudeEvent {
    SessionStart { project: String },
    UserMessage { project: String },
    Thinking { project: String },
    ToolUse { project: String, tool: String, file_path: Option<String> },
    Talking { project: String },
    WaitingForTask { project: String },
    Stop { project: String, success: bool },
    Error { project: String, message: String },
}

/// The mathematical shape of a `ClaudeEvent`.
pub enum EventV {
    SessionStart { project: Seq<char> },
    UserMessage { project: Seq<char> },
    Thinking { project: Seq<char> },
    ToolUse { project: Seq<char>, tool: Seq<char>, file_path: Option<Seq<char>> },
    Talking { project: Seq<char> },
    WaitingForTask { project: Seq<char> },
    Stop { project: Seq<char>, success: bool },
    Error { project: Seq<char>, message: Seq<char> },
}

impl View for ClaudeEvent {
    type V = EventV;

    open spec fn view(&self) -> EventV {
        match *self {
            ClaudeEvent::SessionStart { project } => EventV::SessionStart { project: project@ },
            ClaudeEvent::UserMessage { project } => EventV::UserMessage { project: project@ },
            ClaudeEvent::Thinking { project } => EventV::Thinking { project: project@ },
            ClaudeEvent::ToolUse { project, tool, file_path } => EventV::ToolUse {
                project: project@,
                tool: tool@,
                file_path: file_path.deep_view(),
            },
            ClaudeEvent::Talking { project } => EventV::Talking { project: project@ },
            ClaudeEvent::WaitingForTask { project } => EventV::WaitingForTask {
                project: project@,
            },
            ClaudeEvent::Stop { project, success } => EventV::Stop { project: project@, success },
            ClaudeEvent::Error { project, message } => EventV::Error {
                project: project@,
                message: message@,
            },
        }
    }
}

impl DeepView for ClaudeEvent {
    type V = EventV;

    open spec fn deep_view(&self) -> EventV {
        self.view()
    }
}

impl ClaudeEvent {
    /// The project the event belongs to.
    pub open spec fn spec_project(self) -> Seq<char> {
        match self@ {
            EventV::SessionStart { project } => project,
            EventV::UserMessage { project } => project,
            EventV::Thinking { project } => project,
            EventV::ToolUse { project, .. } => project,
            EventV::Talking { project } => project,
            EventV::WaitingForTask { project } => project,
            EventV::Stop { project, .. } => project,
            EventV::Error { project, .. } => project,
        }
    }
}

} // verus!
