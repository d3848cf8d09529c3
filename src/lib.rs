//! Pane registry and command dispatch for a terminal-multiplexer agent.
//!
//! The registry keeps the latest pane topology; the dispatcher validates
//! controller requests against it and answers with a response that, for the
//! two side-effecting actions, carries the action descriptor.

pub mod commands;
pub mod ipc;
pub mod json;
pub mod state;

pub use commands::{dispatch_command, validate_send_keys_params, PaneDto};
pub use ipc::{
    parse_failure_response, ActionDescriptor, PaneIdParam, Request, Response, ResponseData,
    SendKeysParams,
};
pub use json::JsonValue;
pub use state::{PaneInfo, PaneManifest, State};
