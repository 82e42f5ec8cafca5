//! The wire-facing message shapes the collaborator exchanges with the core:
//! inbound actions and authentication, outbound views and the one-time
//! credential acknowledgment. Transport framing and JSON encoding are the
//! collaborator's concern.

use crate::types::{Task, TaskAction, User};
use crate::view::GameView;
use vstd::prelude::*;

verus! {

/// A message a connected client sends.
#[derive(Debug)]
pub enum IncomingMessage {
    Task(TaskAction),
    Authenticate(AuthenticateMessage),
    GetState,
}

/// Registration (with a profile) or reconnection (with a credential).
#[derive(Debug)]
pub struct AuthenticateMessage {
    pub user: Option<User>,
    pub access_key: Option<String>,
}

/// A message the server pushes to one client.
#[derive(Debug)]
pub enum OutgoingMessage {
    State { game_state: GameView, task: Option<Task> },
    Authenticated { access_key: String },
}

} // verus!
