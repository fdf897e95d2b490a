//! A session harness for a tool-using language-model agent: the rules that decide
//! what the agent may do, how its context is kept within budget, how tool results
//! are projected back, and how sessions are recovered and deleted.

pub mod approval;
pub mod cli;
pub mod context;
pub mod domain;
pub mod events;
pub mod laws;
pub mod executor;
pub mod handling;
pub mod mcp;
pub mod records;
pub mod session;
pub mod settings;
pub mod skill;
pub mod snapshot;
pub mod stream;
pub mod subagent;
pub mod registry;
pub mod text;
pub mod tools;
pub mod turn;
pub mod util;
pub mod web;
