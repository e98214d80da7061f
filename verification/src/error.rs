//! The one error that setting up a proxied session can end in.

use vstd::prelude::*;

verus! {

/// A session needs a background task that buffers its requests while the
/// other side is still connecting. This error says that the task could not be
/// scheduled, and for which direction of the proxy.
#[derive(Clone, Copy, Debug)]
pub enum BufferSpawnError {
    Inbound,
    Outbound,
}

impl BufferSpawnError {
    /// The text of [`BufferSpawnError::description`], as a sequence of characters.
    pub open spec fn description_text(self) -> Seq<char> {
        match self {
            BufferSpawnError::Inbound => "error spawning inbound buffer task"@,
            BufferSpawnError::Outbound => "error spawning outbound buffer task"@,
        }
    }

    /// A fixed sentence that names the direction in which the task failed to start.
    pub fn description(&self) -> (text: &'static str)
        ensures
            text@ == self.description_text(),
    {
        match *self {
            BufferSpawnError::Inbound => "error spawning inbound buffer task",
            BufferSpawnError::Outbound => "error spawning outbound buffer task",
        }
    }
}

} // verus!
