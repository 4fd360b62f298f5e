//! Execution core of a messaging-automation platform.
//!
//! For each chat event seen on a bot's session the core decides whether a
//! scripted flow fires, admits an execution of that flow under a lock and a set
//! of rate rules, paces the flow's steps through time, and turns each step into
//! a record for the outbound queue.
//!
//! Everything here is a decision on plain values. Reading and writing the
//! store, the lock service, the queues and the timers is left to the caller,
//! which performs the action that a decision names and hands back what
//! happened.

pub mod clock;
pub mod flow_engine;
pub mod ingress;
pub mod matcher;
pub mod models;
pub mod processors;
pub mod text;
