use vstd::prelude::*;
use crate::wire::{frame_part, part_of};

verus! {

/// An instruction for the broadcast worker, taken in the order sent.
pub enum Command {
    /// Stop at once, leaving later commands unread.
    Stop,
    /// Broadcast this frame to every registered viewer.
    Data(Vec<u8>),
}

/// What the broadcast worker does with a command: `None` to stop, else the
/// bytes to write to every registered connection.
pub fn part_to_broadcast(command: &Command) -> (r: Option<Vec<u8>>)
    ensures
        match command {
            Command::Stop => r is None,
            Command::Data(frame) => r matches Some(p) && p@ == part_of(frame@),
        },
{
    match command {
        Command::Stop => None,
        Command::Data(frame) => Some(frame_part(frame)),
    }
}

} // verus!
