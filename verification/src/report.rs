//! What a client prints when a transfer completes.
use vstd::prelude::*;

verus! {

/// The direction of a transfer, seen from the side that reports it.
#[derive(Debug, Copy, Clone, PartialEq, Eq, Structural)]
pub enum Direction {
    Upload,
    Download,
}

/// The line printed under the progress bar when a transfer of `payload`
/// bytes has completed; an empty transfer says so.
pub fn finish_message(direction: Direction, payload: u64) -> (m: &'static str)
    ensures
        direction == Direction::Upload && payload == 0 ==> m@ == "finished uploading (0 bytes)...\n"@,
        direction == Direction::Upload && payload != 0 ==> m@ == "finished uploading...\n"@,
        direction == Direction::Download && payload == 0 ==> m@
            == "finished downloading (0 bytes)...\n"@,
        direction == Direction::Download && payload != 0 ==> m@ == "finished downloading...\n"@,
{
    match direction {
        Direction::Upload => if payload == 0 {
            "finished uploading (0 bytes)...\n"
        } else {
            "finished uploading...\n"
        },
        Direction::Download => if payload == 0 {
            "finished downloading (0 bytes)...\n"
        } else {
            "finished downloading...\n"
        },
    }
}

} // verus!
