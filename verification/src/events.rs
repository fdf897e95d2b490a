//! The events a session records: their kinds, the text a stream chunk is recorded with, and
//! which event is the latest of a kind.

use vstd::prelude::*;

use crate::text::{ellipsis_truncated, truncate_ellipsis};

verus! {

/// The kind of an event.
#[derive(Debug, Clone, Copy, PartialEq, Eq, Structural)]
pub enum EventType {
    /// The session's state changed.
    SessionStatusChanged,
    /// A chunk of the model's answer arrived.
    StreamChunkReceived,
    /// A tool call awaits approval.
    ApprovalRequested,
    /// An approval was decided.
    ApprovalResolved,
    /// A tool call's state changed.
    ToolStatusChanged,
    /// Token counts were updated.
    TokenUsageUpdated,
    /// A compaction summary was made.
    WorkingMemoryCreated,
    /// A sub-agent's state changed.
    AgentStatusChanged,
}

/// The stored name of an event kind.
pub open spec fn event_type_name(t: EventType) -> Seq<char> {
    match t {
        EventType::SessionStatusChanged => "SessionStatusChanged"@,
        EventType::StreamChunkReceived => "StreamChunkReceived"@,
        EventType::ApprovalRequested => "ApprovalRequested"@,
        EventType::ApprovalResolved => "ApprovalResolved"@,
        EventType::ToolStatusChanged => "ToolStatusChanged"@,
        EventType::TokenUsageUpdated => "TokenUsageUpdated"@,
        EventType::WorkingMemoryCreated => "WorkingMemoryCreated"@,
        EventType::AgentStatusChanged => "AgentStatusChanged"@,
    }
}

impl EventType {
    /// The stored name of the kind.
    pub fn as_str(self) -> (res: &'static str)
        ensures
            res@ == event_type_name(self),
    {
        match self {
            EventType::SessionStatusChanged => "SessionStatusChanged",
            EventType::StreamChunkReceived => "StreamChunkReceived",
            EventType::ApprovalRequested => "ApprovalRequested",
            EventType::ApprovalResolved => "ApprovalResolved",
            EventType::ToolStatusChanged => "ToolStatusChanged",
            EventType::TokenUsageUpdated => "TokenUsageUpdated",
            EventType::WorkingMemoryCreated => "WorkingMemoryCreated",
            EventType::AgentStatusChanged => "AgentStatusChanged",
        }
    }
}

/// Records the events of a session directory.
#[derive(Debug)]
pub struct EventBus {
    /// Session directory.
    pub session_dir: String,
}

impl EventBus {
    /// The events of `session_dir`.
    pub fn new(session_dir: String) -> (res: EventBus)
        ensures
            res.session_dir == session_dir,
    {
        EventBus { session_dir }
    }
}

/// The text a stream chunk is recorded with: at most 500 characters, marked when cut.
pub fn stream_chunk_text(chunk: &str) -> (res: String)
    ensures
        res@ == ellipsis_truncated(chunk@, 500),
{
    truncate_ellipsis(chunk, 500)
}

/// The last position of an event of kind `t`, among the first `n`.
pub open spec fn last_of_type(types: Seq<EventType>, t: EventType, n: int) -> Option<int>
    decreases n,
{
    if n <= 0 || n > types.len() {
        None
    } else if types[n - 1] == t {
        Some(n - 1)
    } else {
        last_of_type(types, t, n - 1)
    }
}

/// The position of the latest event of kind `t`.
pub fn latest_of_type(types: &Vec<EventType>, t: EventType) -> (res: Option<usize>)
    ensures
        match last_of_type(types@, t, types@.len() as int) {
            Some(i) => res == Some(i as usize),
            None => res is None,
        },
{
    let mut n: usize = types.len();
    while n > 0
        invariant
            n <= types@.len(),
            last_of_type(types@, t, types@.len() as int) == last_of_type(types@, t, n as int),
        decreases n,
    {
        if types[n - 1] == t {
            return Some(n - 1);
        }
        n -= 1;
    }
    None
}

} // verus!
