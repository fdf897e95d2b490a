//! The entities of the harness: sessions, messages, tools, agents and audits.

use vstd::prelude::*;

use crate::text::str_eq;

verus! {

/// How tool calls are approved in a session.
#[derive(Debug, Clone, Copy, PartialEq, Eq, Structural)]
pub enum ApprovalMode {
    /// Every tool call asks the user.
    AskUser,
    /// Only read-only tools are approved without asking.
    AutoApproveSafe,
    /// Every tool call is approved.
    FullAccess,
}

/// The stable name under which a mode is stored.
pub open spec fn approval_mode_name(mode: ApprovalMode) -> Seq<char> {
    match mode {
        ApprovalMode::AskUser => "AskUser"@,
        ApprovalMode::AutoApproveSafe => "AutoApproveSafe"@,
        ApprovalMode::FullAccess => "FullAccess"@,
    }
}

/// The mode that a stored name denotes; unknown names denote `AskUser`.
pub open spec fn approval_mode_of(name: Seq<char>) -> ApprovalMode {
    if name == "AutoApproveSafe"@ {
        ApprovalMode::AutoApproveSafe
    } else if name == "FullAccess"@ {
        ApprovalMode::FullAccess
    } else {
        ApprovalMode::AskUser
    }
}

impl ApprovalMode {
    /// The stable name under which the mode is stored.
    pub fn as_str(self) -> (res: &'static str)
        ensures
            res@ == approval_mode_name(self),
    {
        match self {
            ApprovalMode::AskUser => "AskUser",
            ApprovalMode::AutoApproveSafe => "AutoApproveSafe",
            ApprovalMode::FullAccess => "FullAccess",
        }
    }

    /// The mode stored under `value`; any other text gives `AskUser`.
    pub fn from_str(value: &str) -> (res: ApprovalMode)
        ensures
            res == approval_mode_of(value@),
    {
        if str_eq(value, "AutoApproveSafe") {
            ApprovalMode::AutoApproveSafe
        } else if str_eq(value, "FullAccess") {
            ApprovalMode::FullAccess
        } else {
            ApprovalMode::AskUser
        }
    }
}

/// The run state of a session.
#[derive(Debug, Clone, Copy, PartialEq, Eq, Structural)]
pub enum SessionStatus {
    /// Not selected.
    Unselected,
    /// Selected and waiting for input.
    Selected,
    /// A turn is running.
    Running,
    /// The last turn was cancelled.
    Cancelled,
    /// The last turn finished.
    Finished,
}

/// The stable name under which a status is stored.
pub open spec fn session_status_name(status: SessionStatus) -> Seq<char> {
    match status {
        SessionStatus::Unselected => "unselected"@,
        SessionStatus::Selected => "selected"@,
        SessionStatus::Running => "running"@,
        SessionStatus::Cancelled => "cancelled"@,
        SessionStatus::Finished => "finished"@,
    }
}

/// The status that a stored name denotes; unknown names denote `Unselected`.
pub open spec fn session_status_of(name: Seq<char>) -> SessionStatus {
    if name == "selected"@ {
        SessionStatus::Selected
    } else if name == "running"@ {
        SessionStatus::Running
    } else if name == "cancelled"@ {
        SessionStatus::Cancelled
    } else if name == "finished"@ {
        SessionStatus::Finished
    } else {
        SessionStatus::Unselected
    }
}

impl SessionStatus {
    /// The stable name under which the status is stored.
    pub fn as_str(self) -> (res: &'static str)
        ensures
            res@ == session_status_name(self),
    {
        match self {
            SessionStatus::Unselected => "unselected",
            SessionStatus::Selected => "selected",
            SessionStatus::Running => "running",
            SessionStatus::Cancelled => "cancelled",
            SessionStatus::Finished => "finished",
        }
    }

    /// The status stored under `value`; any other text gives `Unselected`.
    pub fn from_str(value: &str) -> (res: SessionStatus)
        ensures
            res == session_status_of(value@),
    {
        if str_eq(value, "selected") {
            SessionStatus::Selected
        } else if str_eq(value, "running") {
            SessionStatus::Running
        } else if str_eq(value, "cancelled") {
            SessionStatus::Cancelled
        } else if str_eq(value, "finished") {
            SessionStatus::Finished
        } else {
            SessionStatus::Unselected
        }
    }
}

/// The role of a message in a conversation.
#[derive(Debug, Clone, Copy, PartialEq, Eq, Structural)]
pub enum MessageRole {
    /// System instructions.
    System,
    /// User input.
    User,
    /// Model output.
    Assistant,
    /// Tool output.
    Tool,
}

/// The lower-case wire name of a role.
pub open spec fn role_wire_name(role: MessageRole) -> Seq<char> {
    match role {
        MessageRole::System => "system"@,
        MessageRole::User => "user"@,
        MessageRole::Assistant => "assistant"@,
        MessageRole::Tool => "tool"@,
    }
}

/// The role that a stored wire name denotes; unknown names denote `User`.
pub open spec fn role_of_wire_name(name: Seq<char>) -> MessageRole {
    if name == "system"@ {
        MessageRole::System
    } else if name == "assistant"@ {
        MessageRole::Assistant
    } else if name == "tool"@ {
        MessageRole::Tool
    } else {
        MessageRole::User
    }
}

/// The capitalised name of a role, as used in summaries.
pub open spec fn role_label(role: MessageRole) -> Seq<char> {
    match role {
        MessageRole::System => "System"@,
        MessageRole::User => "User"@,
        MessageRole::Assistant => "Assistant"@,
        MessageRole::Tool => "Tool"@,
    }
}

impl MessageRole {
    /// The lower-case wire name of the role.
    pub fn as_str(self) -> (res: &'static str)
        ensures
            res@ == role_wire_name(self),
    {
        match self {
            MessageRole::System => "system",
            MessageRole::User => "user",
            MessageRole::Assistant => "assistant",
            MessageRole::Tool => "tool",
        }
    }

    /// The role stored under `value`; any other text gives `User`.
    pub fn from_str(value: &str) -> (res: MessageRole)
        ensures
            res == role_of_wire_name(value@),
    {
        if str_eq(value, "system") {
            MessageRole::System
        } else if str_eq(value, "assistant") {
            MessageRole::Assistant
        } else if str_eq(value, "tool") {
            MessageRole::Tool
        } else {
            MessageRole::User
        }
    }

    /// The capitalised name of the role.
    pub fn label(self) -> (res: &'static str)
        ensures
            res@ == role_label(self),
    {
        match self {
            MessageRole::System => "System",
            MessageRole::User => "User",
            MessageRole::Assistant => "Assistant",
            MessageRole::Tool => "Tool",
        }
    }
}

/// The function part of a tool call.
#[derive(Debug)]
pub struct ToolFunctionCall {
    /// Tool name.
    pub name: String,
    /// Arguments as JSON text.
    pub arguments: String,
}

impl Clone for ToolFunctionCall {
    fn clone(&self) -> (res: Self)
        ensures
            res == *self,
    {
        ToolFunctionCall { name: self.name.clone(), arguments: self.arguments.clone() }
    }
}

/// A tool call requested by the model.
#[derive(Debug)]
pub struct AssistantToolCall {
    /// Call identifier.
    pub id: String,
    /// Call kind, `function`.
    pub kind: String,
    /// The called function.
    pub function: ToolFunctionCall,
}

impl Clone for AssistantToolCall {
    fn clone(&self) -> (res: Self)
        ensures
            res == *self,
    {
        AssistantToolCall {
            id: self.id.clone(),
            kind: self.kind.clone(),
            function: self.function.clone(),
        }
    }
}

/// One message of a conversation.
#[derive(Debug)]
pub struct Message {
    /// Role.
    pub role: MessageRole,
    /// Text.
    pub content: String,
    /// Optional name.
    pub name: Option<String>,
    /// The tool call that a tool message answers.
    pub tool_call_id: Option<String>,
    /// Tool calls carried by an assistant message.
    pub tool_calls: Vec<AssistantToolCall>,
    /// Reasoning text.
    pub reasoning_content: Option<String>,
    /// Local metadata as JSON text.
    pub metadata: Option<String>,
}

/// Copies an optional string.
pub fn clone_opt_string(value: &Option<String>) -> (res: Option<String>)
    ensures
        res == *value,
{
    match value {
        Some(text) => Some(text.clone()),
        None => None,
    }
}

/// Copies a list of tool calls.
pub fn clone_tool_calls(calls: &Vec<AssistantToolCall>) -> (res: Vec<AssistantToolCall>)
    ensures
        res@ == calls@,
{
    let mut res: Vec<AssistantToolCall> = Vec::new();
    let mut i: usize = 0;
    while i < calls.len()
        invariant
            i <= calls.len(),
            res@ == calls@.take(i as int),
        decreases calls.len() - i,
    {
        res.push(calls[i].clone());
        i += 1;
        assert(res@ =~= calls@.take(i as int));
    }
    assert(calls@.take(calls.len() as int) =~= calls@);
    res
}

/// The contents of a message as plain values.
pub struct MessageView {
    /// Role.
    pub role: MessageRole,
    /// Text.
    pub content: Seq<char>,
    /// Optional name.
    pub name: Option<Seq<char>>,
    /// The tool call that a tool message answers.
    pub tool_call_id: Option<Seq<char>>,
    /// Tool calls carried by an assistant message.
    pub tool_calls: Seq<AssistantToolCall>,
    /// Reasoning text.
    pub reasoning_content: Option<Seq<char>>,
    /// Local metadata as JSON text.
    pub metadata: Option<Seq<char>>,
}

/// The characters of an optional string.
pub open spec fn opt_view(value: Option<String>) -> Option<Seq<char>> {
    match value {
        Some(text) => Some(text@),
        None => None,
    }
}

impl View for Message {
    type V = MessageView;

    open spec fn view(&self) -> MessageView {
        MessageView {
            role: self.role,
            content: self.content@,
            name: opt_view(self.name),
            tool_call_id: opt_view(self.tool_call_id),
            tool_calls: self.tool_calls@,
            reasoning_content: opt_view(self.reasoning_content),
            metadata: opt_view(self.metadata),
        }
    }
}

/// The contents of a list of messages.
pub open spec fn messages_view(messages: Seq<Message>) -> Seq<MessageView> {
    messages.map_values(|m: Message| m@)
}

impl Clone for Message {
    fn clone(&self) -> (res: Self)
        ensures
            res@ == self@,
    {
        Message {
            role: self.role,
            content: self.content.clone(),
            name: clone_opt_string(&self.name),
            tool_call_id: clone_opt_string(&self.tool_call_id),
            tool_calls: clone_tool_calls(&self.tool_calls),
            reasoning_content: clone_opt_string(&self.reasoning_content),
            metadata: clone_opt_string(&self.metadata),
        }
    }
}

/// Copies a list of messages.
pub fn clone_messages(messages: &Vec<Message>) -> (res: Vec<Message>)
    ensures
        messages_view(res@) == messages_view(messages@),
{
    let mut res: Vec<Message> = Vec::new();
    let mut i: usize = 0;
    while i < messages.len()
        invariant
            i <= messages.len(),
            res@.len() == i,
            forall|j: int| 0 <= j < i ==> (#[trigger] res@[j])@ == messages@[j]@,
        decreases messages.len() - i,
    {
        res.push(messages[i].clone());
        i += 1;
    }
    assert(messages_view(res@) =~= messages_view(messages@));
    res
}

impl Message {
    /// A system message.
    pub fn system(content: String) -> (res: Message)
        ensures
            res.role == MessageRole::System,
            res.content == content,
            res.name is None,
            res.tool_call_id is None,
            res.tool_calls@ == Seq::<AssistantToolCall>::empty(),
            res.reasoning_content is None,
            res.metadata is None,
    {
        Message {
            role: MessageRole::System,
            content,
            name: None,
            tool_call_id: None,
            tool_calls: Vec::new(),
            reasoning_content: None,
            metadata: None,
        }
    }

    /// A user message.
    pub fn user(content: String) -> (res: Message)
        ensures
            res.role == MessageRole::User,
            res.content == content,
            res.name is None,
            res.tool_call_id is None,
            res.tool_calls@ == Seq::<AssistantToolCall>::empty(),
            res.reasoning_content is None,
            res.metadata is None,
    {
        Message {
            role: MessageRole::User,
            content,
            name: None,
            tool_call_id: None,
            tool_calls: Vec::new(),
            reasoning_content: None,
            metadata: None,
        }
    }

    /// An assistant message with its tool calls and reasoning.
    pub fn assistant(
        content: String,
        tool_calls: Vec<AssistantToolCall>,
        reasoning_content: Option<String>,
    ) -> (res: Message)
        ensures
            res.role == MessageRole::Assistant,
            res.content == content,
            res.name is None,
            res.tool_call_id is None,
            res.tool_calls == tool_calls,
            res.reasoning_content == reasoning_content,
            res.metadata is None,
    {
        Message {
            role: MessageRole::Assistant,
            content,
            name: None,
            tool_call_id: None,
            tool_calls,
            reasoning_content,
            metadata: None,
        }
    }

    /// A tool message answering the call `tool_call_id`.
    pub fn tool(tool_call_id: String, content: String) -> (res: Message)
        ensures
            res.role == MessageRole::Tool,
            res.content == content,
            res.name is None,
            res.tool_call_id == Some(tool_call_id),
            res.tool_calls@ == Seq::<AssistantToolCall>::empty(),
            res.reasoning_content is None,
            res.metadata is None,
    {
        Message {
            role: MessageRole::Tool,
            content,
            name: None,
            tool_call_id: Some(tool_call_id),
            tool_calls: Vec::new(),
            reasoning_content: None,
            metadata: None,
        }
    }
}

} // verus!
