//! What the two sides do with a command: the session that handles it, and
//! the controlling process that sends it.

pub mod uds_client;
pub mod user_input;
