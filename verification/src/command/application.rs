//! The names under which the commands are entered, and the defaults of a
//! creation.

use vstd::prelude::*;

verus! {

/// The keyword that creates a notification.
pub const CREATE: &'static str = "create";

/// The keyword that queues a notification.
pub const QUEUE: &'static str = "queue";

/// The short keyword that queues a notification.
pub const Q: &'static str = "q";

/// The keyword that deletes notifications.
pub const DELETE: &'static str = "delete";

/// The keyword that lists the notifications.
pub const LIST: &'static str = "list";

/// The short keyword that lists the notifications.
pub const LS: &'static str = "ls";

/// The keyword that tries the delivery channels.
pub const TEST: &'static str = "test";

/// The keyword that ends the program.
pub const EXIT: &'static str = "exit";

/// The keyword that clears the screen.
pub const CLEAR: &'static str = "clear";

/// The keyword that shows the archive.
pub const HISTORY: &'static str = "history";

/// Who wrote the program.
pub const AUTHOR: &'static str = "Young";

/// The name of the executable.
pub const BINARY_NAME: &'static str = "pomodoro";

/// Minutes of work where neither the command nor the configuration says.
pub const DEFAULT_WORK_TIME: u16 = 25;

/// Minutes of break where neither the command nor the configuration says.
pub const DEFAULT_BREAK_TIME: u16 = 5;

} // verus!
