//! Headless runs of a coding agent, and the events by which a run reports its plan.
//!
//! The crate holds every decision of such a run as verified code.

pub mod cli;
pub mod delay;
pub mod delivery;
pub mod disk;
pub mod environment_context;
pub mod event;
pub mod event_loop;
pub mod failure;
pub mod instant;
pub mod json;
pub mod outside;
pub mod plan;
pub mod plan_emitter;
pub mod policy;
pub mod retry_after;
pub mod run;
pub mod step;
pub mod text;
pub mod webhook;
