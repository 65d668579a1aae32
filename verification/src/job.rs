//! One run's settings, and how the erasure of one file starts.

use crate::explore::PathKind;
use crate::files::{get_size_to_write, size_of_text, SizeError};
use crate::overwrite::{fresh, EngineState, Overwriter};
use vstd::prelude::*;

verus! {

/// The settings of a run. They are fixed before the first file is touched.
#[derive(Debug, PartialEq, Eq)]
pub struct ShredJob {
    /// How many passes each file gets, the pass of zeros not counted.
    pub times: u32,
    /// Whether a file is removed once it is overwritten.
    pub remove: bool,
    /// Whether a pass of zeros follows the others.
    pub write_zeroes: bool,
    /// Whether each step is reported.
    pub verbose: bool,
    /// Whether directories are descended into.
    pub recursive: bool,
    /// The number of bytes to write, as it was given; `None` stands for the
    /// length of each file.
    pub size: Option<String>,
}

/// What the metadata of a file says before it is opened.
#[derive(Clone, Copy, Debug, PartialEq, Eq, Structural)]
pub struct FileStatus {
    /// What the path is.
    pub kind: PathKind,
    /// Whether its permissions forbid writing.
    pub readonly: bool,
    /// Its length in bytes.
    pub len: u64,
}

/// Why a file is not overwritten.
#[derive(Clone, Copy, Debug, PartialEq, Eq, Structural)]
pub enum ShredError {
    /// The path is a directory.
    Directory,
    /// The path is neither a regular file nor a directory.
    NotRegularFile,
    /// The file may not be written; nothing was done to it.
    ReadOnly,
    /// The size given for the run was rejected.
    Size(SizeError),
    /// No buffer of the size to write can be had on this machine.
    BufferTooLarge,
}

/// The number of bytes that each pass of a file writes: the size given for
/// the run, or the file's length if none was given.
pub open spec fn size_to_write(size: Option<String>, len: u64) -> Result<u64, SizeError> {
    match size {
        Some(text) => size_of_text(text@),
        None => Ok(len),
    }
}

/// How the erasure of a file starts: with the reason it is refused, or with
/// an engine that has handed out no pass yet.
///
/// A directory is refused, then what is no regular file, then a file that
/// may not be written, then a size that is rejected or that no buffer can
/// have.
pub open spec fn shred_start(job: ShredJob, status: FileStatus) -> Result<EngineState, ShredError> {
    match status.kind {
        PathKind::Directory => Err(ShredError::Directory),
        PathKind::Other => Err(ShredError::NotRegularFile),
        PathKind::File => if status.readonly {
            Err(ShredError::ReadOnly)
        } else {
            match size_to_write(job.size, status.len) {
                Err(e) => Err(ShredError::Size(e)),
                Ok(size) => if size > usize::MAX {
                    Err(ShredError::BufferTooLarge)
                } else {
                    Ok(fresh(job.times as nat, job.write_zeroes, size as nat))
                },
            }
        },
    }
}

/// Starts the erasure of one file: checks that it is a regular file that may
/// be written, settles the number of bytes to write, and sets up the engine
/// that hands out the passes.
pub fn shred(job: &ShredJob, status: &FileStatus) -> (r: Result<Overwriter, ShredError>)
    ensures
        match r {
            Ok(engine) => shred_start(*job, *status) == Ok::<EngineState, ShredError>(engine@),
            Err(e) => shred_start(*job, *status) == Err::<EngineState, ShredError>(e),
        },
{
    match status.kind {
        PathKind::Directory => {
            return Err(ShredError::Directory);
        },
        PathKind::Other => {
            return Err(ShredError::NotRegularFile);
        },
        PathKind::File => {},
    }
    if status.readonly {
        return Err(ShredError::ReadOnly);
    }
    let size = match &job.size {
        Some(text) => get_size_to_write(true, text.as_str(), status.len),
        None => get_size_to_write(false, "", status.len),
    };
    match size {
        Err(e) => Err(ShredError::Size(e)),
        Ok(size) => {
            if size > usize::MAX as u64 {
                Err(ShredError::BufferTooLarge)
            } else {
                Ok(Overwriter::new(job.times, job.write_zeroes, size as usize))
            }
        },
    }
}

} // verus!
