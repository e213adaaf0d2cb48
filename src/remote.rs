//! Writing a buffer into another process: allocate a read-write-execute
//! region there, then copy the bytes into it. The two system calls are made
//! by the caller; this machine decides what follows each of them.
use vstd::prelude::*;

verus! {

/// Why a buffer could not be written into the target process.
#[derive(Clone, Copy, Debug, PartialEq, Eq, Structural)]
pub enum InjectError {
    /// The buffer is empty; nothing is allocated for it.
    EmptyPayload,
    /// The allocation failed with this system error code.
    AllocationError { code: u32 },
    /// The copy failed with this system error code.
    RemoteWriteError { code: u32 },
    /// The copy stopped after this many bytes. The region is left in place;
    /// it goes away with the target process.
    ShortWrite { written: usize },
}

/// A region of the target process that holds a copied buffer. Its address
/// means something only inside that process, while it lives.
#[derive(Clone, Copy, Debug, PartialEq, Eq, Structural)]
pub struct RemoteAllocation {
    pub base: u64,
    pub size: usize,
}

/// How far the writing of one buffer has come.
#[derive(Clone, Copy, Debug, PartialEq, Eq, Structural)]
pub enum WriteStage {
    /// Allocate `size` bytes, read-write-execute, in the target.
    Allocate { size: usize },
    /// Copy the `size` bytes of the buffer to `base` in the target.
    Copy { base: u64, size: usize },
    /// The buffer is in place.
    Done { region: RemoteAllocation },
    Failed { error: InjectError },
}

/// What a system call reported.
#[derive(Clone, Copy, Debug, PartialEq, Eq, Structural)]
pub enum WriteEvent {
    /// The allocation returned `base`, 0 on failure, and the last system
    /// error code.
    Allocated { base: u64, last_error: u32 },
    /// The copy wrote this many bytes.
    Copied { written: usize },
    /// The copy failed with this system error code.
    CopyFailed { code: u32 },
}

/// The first stage for a buffer of `size` bytes: an empty buffer is refused
/// before anything is allocated.
pub open spec fn first_stage(size: usize) -> WriteStage {
    if size == 0 {
        WriteStage::Failed { error: InjectError::EmptyPayload }
    } else {
        WriteStage::Allocate { size }
    }
}

/// The stage that follows a system call's report. A report that does not
/// belong to the stage changes nothing.
pub open spec fn next_stage(stage: WriteStage, event: WriteEvent) -> WriteStage {
    match (stage, event) {
        (WriteStage::Allocate { size }, WriteEvent::Allocated { base, last_error }) => if base == 0 {
            WriteStage::Failed { error: InjectError::AllocationError { code: last_error } }
        } else {
            WriteStage::Copy { base, size }
        },
        (WriteStage::Copy { base, size }, WriteEvent::Copied { written }) => if written == size {
            WriteStage::Done { region: RemoteAllocation { base, size } }
        } else {
            WriteStage::Failed { error: InjectError::ShortWrite { written } }
        },
        (WriteStage::Copy { .. }, WriteEvent::CopyFailed { code }) => WriteStage::Failed {
            error: InjectError::RemoteWriteError { code },
        },
        _ => stage,
    }
}

/// Starts the writing of a buffer of `size` bytes.
pub fn begin_write(size: usize) -> (r: WriteStage)
    ensures
        r == first_stage(size),
        size == 0 <==> r == (WriteStage::Failed { error: InjectError::EmptyPayload }),
{
    if size == 0 {
        WriteStage::Failed { error: InjectError::EmptyPayload }
    } else {
        WriteStage::Allocate { size }
    }
}

/// Moves the writing of a buffer on by a system call's report.
pub fn write_in(stage: WriteStage, event: WriteEvent) -> (r: WriteStage)
    ensures
        r == next_stage(stage, event),
{
    match (stage, event) {
        (WriteStage::Allocate { size }, WriteEvent::Allocated { base, last_error }) => {
            if base == 0 {
                WriteStage::Failed { error: InjectError::AllocationError { code: last_error } }
            } else {
                WriteStage::Copy { base, size }
            }
        },
        (WriteStage::Copy { base, size }, WriteEvent::Copied { written }) => {
            if written == size {
                WriteStage::Done { region: RemoteAllocation { base, size } }
            } else {
                WriteStage::Failed { error: InjectError::ShortWrite { written } }
            }
        },
        (WriteStage::Copy { .. }, WriteEvent::CopyFailed { code }) => {
            WriteStage::Failed { error: InjectError::RemoteWriteError { code } }
        },
        _ => stage,
    }
}

/// A buffer is in place only after an allocation that succeeded and a copy
/// of all its bytes: from the first stage, an allocation report and then a
/// copy report lead to `Done` exactly when the size is not 0, the base is not
/// 0 and the copy wrote `size` bytes, and the region is then that base and size.
pub proof fn lemma_write_done_iff(size: usize, base: u64, last_error: u32, copy: WriteEvent)
    ensures
        next_stage(
            next_stage(first_stage(size), WriteEvent::Allocated { base, last_error }),
            copy,
        ) == (WriteStage::Done { region: RemoteAllocation { base, size } }) <==> (size != 0 && base
            != 0 && copy == (WriteEvent::Copied { written: size })),
        size == 0 ==> next_stage(
            next_stage(first_stage(size), WriteEvent::Allocated { base, last_error }),
            copy,
        ) == (WriteStage::Failed { error: InjectError::EmptyPayload }),
{
}

} // verus!
