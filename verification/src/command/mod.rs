//! The commands of a session: their names, the output they collect, and the
//! reading of their arguments.

pub mod action;
pub mod application;
pub mod handler;
pub mod output;
pub mod util;
