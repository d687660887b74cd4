//! The decisions of the named-pipe transport: how a pipe path is acquired
//! (create, reuse, or refuse) and how an outbound line is framed. The file
//! descriptors themselves — mkfifo, open, blocking reads and writes — are
//! the caller's, which acts on the verdicts returned here.

use vstd::prelude::*;
use vstd::slice::slice_to_vec;

verus! {

/// What the filesystem answered when a FIFO was requested at a path.
#[derive(Debug, PartialEq, Eq, Structural, Clone, Copy)]
pub enum MkfifoOutcome {
    /// The FIFO did not exist and was created.
    Created,
    /// Some filesystem object already occupies the path.
    AlreadyExists,
    /// The creation failed for another reason.
    Failed,
}

/// What to do with the path after the creation attempt.
#[derive(Debug, PartialEq, Eq, Structural, Clone, Copy)]
pub enum PipeAction {
    /// Open the FIFO at the path.
    OpenPipe,
    /// A non-FIFO object occupies the path: fail with a path conflict,
    /// never truncate or overwrite it.
    FailConflict,
    /// Propagate the creation error unchanged.
    FailOther,
}

/// Decide how to acquire a pipe: a fresh FIFO is opened; an existing
/// object is opened only if it is itself a FIFO, and is a path conflict
/// otherwise; any other creation failure propagates. `existing_is_fifo`
/// is what a metadata check of the path reports and is only consulted
/// when an object already exists.
pub fn pipe_acquire_action(outcome: MkfifoOutcome, existing_is_fifo: bool) -> (r: PipeAction)
    ensures
        outcome is Created ==> r is OpenPipe,
        outcome is AlreadyExists && existing_is_fifo ==> r is OpenPipe,
        outcome is AlreadyExists && !existing_is_fifo ==> r is FailConflict,
        outcome is Failed ==> r is FailOther,
{
    match outcome {
        MkfifoOutcome::Created => PipeAction::OpenPipe,
        MkfifoOutcome::AlreadyExists => {
            if existing_is_fifo {
                PipeAction::OpenPipe
            } else {
                PipeAction::FailConflict
            }
        },
        MkfifoOutcome::Failed => PipeAction::FailOther,
    }
}

/// Frame an outbound line: the payload followed by a single line-feed
/// byte. The writer sends exactly these bytes and flushes before
/// returning.
pub fn frame_line(payload: &[u8]) -> (r: Vec<u8>)
    ensures
        r@ == payload@ + seq![0x0Au8],
{
    let mut line: Vec<u8> = slice_to_vec(payload);
    line.push(0x0A);
    proof {
        assert(line@ =~= payload@ + seq![0x0Au8]);
    }
    line
}

} // verus!
