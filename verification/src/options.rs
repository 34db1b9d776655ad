//! Options for adding actors and initiators to a worker.

use crate::priority::Priority;
use vstd::prelude::*;

verus! {

/// Options for adding an actor.
#[derive(Clone, Copy, Debug)]
pub struct ActorOptions {
    /// The priority with which the actor is scheduled.
    pub priority: Priority,
    /// Whether the actor runs once right after it is added, or waits for
    /// its first wake.
    pub ready_on_spawn: bool,
    /// The number of messages that the inbox of the actor holds.
    pub inbox_capacity: usize,
}

/// The number of messages that an inbox holds unless asked otherwise.
pub const DEFAULT_INBOX_CAPACITY: usize = 8;

impl Default for ActorOptions {
    fn default() -> (r: ActorOptions)
        ensures
            r.priority == Priority::Normal,
            r.ready_on_spawn,
            r.inbox_capacity == DEFAULT_INBOX_CAPACITY,
    {
        ActorOptions {
            priority: Priority::Normal,
            ready_on_spawn: true,
            inbox_capacity: DEFAULT_INBOX_CAPACITY,
        }
    }
}

/// Options for adding an initiator. There are none yet.
#[derive(Clone, Copy, Debug)]
pub struct InitiatorOptions {}

impl Default for InitiatorOptions {
    fn default() -> (r: InitiatorOptions) {
        InitiatorOptions {  }
    }
}

} // verus!
