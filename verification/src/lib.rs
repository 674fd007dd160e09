//! A bridge between a chat slash-command and the branch-protection settings of
//! a source-hosting platform.
//!
//! The library holds the decisions: which command a payload carries, which
//! request goes out for it, and which reply the sender reads once the answer
//! is in. Sending the request is left to the program around it, which hands
//! the answer back as plain values.

pub mod config;
pub mod deployment;
pub mod error;
pub mod header_set;
pub mod json;
pub mod patch;
pub mod request;
pub mod slack_handler;
pub mod text;

pub use config::Config;
pub use deployment::{deployment_output, deployment_phases, deployment_request, GatePhase};
pub use error::RequestError;
pub use header_set::headers;
pub use patch::SettingsPatch;
pub use request::{Method, OutboundRequest, Response};
pub use slack_handler::{conclude, plan_command, reply_for, Command, Plan};
