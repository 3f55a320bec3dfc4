//! Orchestration core of a conversational agent.
//!
//! The crate turns one user message into a validated sequence of backend
//! requests and tool executions, gates tool calls behind approval, and keeps
//! an episodic memory as an operation log with a derived index. It performs
//! no input or output itself: every operation takes plain values, updates
//! the state and tells the caller what to do next.
//!
//! - [`message`], [`conversation`]: messages, the history, and the
//!   projection of it that a backend accepts.
//! - [`agent`]: the agent and the engine that runs a turn.
//! - [`laws`]: the invariant of the states an agent reaches, and what each
//!   action guarantees.
//! - [`config`], [`providers`]: models, the policy for tools, and the
//!   backends.
//! - [`registry`], [`tools`]: the tools an agent may call.
//! - [`tasks`]: the queue of autonomous sub-goals.
//! - [`memory`]: the operation log, the index, replay, compaction, search.
//! - [`commands`], [`theme`]: what a line of user input asks for, and the
//!   colours of the terminal front end.
//! - [`json`], [`text`], [`outside`], [`logbuf`]: JSON text, text helpers,
//!   fresh identifiers and the time, and a bounded buffer of log lines.

pub mod agent;
pub mod commands;
pub mod config;
pub mod conversation;
pub mod json;
pub mod laws;
pub mod logbuf;
pub mod memory;
pub mod message;
pub mod outside;
pub mod providers;
pub mod registry;
pub mod tasks;
pub mod text;
pub mod theme;
pub mod tools;
