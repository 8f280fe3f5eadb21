//! The logic around driving an interactive agent session from outside: the control socket and its
//! supervision, messages and side conversations that come in through it, the session log, and the
//! stars of the composer.

use vstd::prelude::*;

pub mod app_command;
pub mod app_event;
pub mod channel;
pub mod connection;
pub mod control_response;
pub mod control_socket;
pub mod external_btw;
pub mod external_literal;
pub mod io_failure;
pub mod json;
pub mod model_messages;
pub mod request_cache;
pub mod session_log;
pub mod sparkle;
pub mod stars;
pub mod supervisor;
pub mod text;
pub mod thread_id;
pub mod thread_input;
pub mod user_message;

verus! {

} // verus!
