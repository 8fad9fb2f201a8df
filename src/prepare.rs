//! The decisions taken while preparing a job's download directory.
//!
//! The caller performs each step on the file system and hands back what it
//! observed; `next_step` says what to do next, until preparation is `Done`
//! with the canonical directory or with the error that stopped it.
use vstd::prelude::*;

use crate::error::{other_io_error, YoutubeDLError};
use std::path::PathBuf;

verus! {

/// A step of preparing a download directory, for the caller to perform.
#[derive(Debug)]
pub enum DirAction {
    /// Check whether the path exists.
    CheckExists,
    /// Create the directory together with all its missing parents.
    CreateAll,
    /// Check whether the path is a directory.
    CheckIsDir,
    /// Resolve the path to an absolute, canonical one.
    Canonicalize,
    /// Preparation is over: the canonical directory, or why it failed.
    Done(Result<PathBuf, YoutubeDLError>),
}

/// What the caller observed when it performed a step.
#[derive(Debug)]
pub enum DirEvent {
    /// Whether the path exists.
    Exists(bool),
    /// How creating the directory went.
    Created(Result<(), std::io::Error>),
    /// Whether the path is a directory.
    IsDir(bool),
    /// The canonical path, or why it could not be resolved.
    Canonical(Result<PathBuf, std::io::Error>),
}

/// The first step: find out whether the path exists.
pub fn first_step() -> (r: DirAction)
    ensures
        r is CheckExists,
{
    DirAction::CheckExists
}

/// The step that follows an observation. A missing path is created with its
/// parents; an existing one, or one just created, must be a directory; a
/// directory is then resolved to its canonical path, which ends preparation.
/// Any failure on the way ends it with that failure.
pub fn next_step(event: DirEvent) -> (r: DirAction)
    ensures
        match event {
            DirEvent::Exists(exists) => if exists {
                r is CheckIsDir
            } else {
                r is CreateAll
            },
            DirEvent::Created(Ok(_)) => r is CheckIsDir,
            DirEvent::Created(Err(e)) => r matches DirAction::Done(Err(YoutubeDLError::IOError(e2)))
                && e2 == e,
            DirEvent::IsDir(is_dir) => if is_dir {
                r is Canonicalize
            } else {
                r matches DirAction::Done(Err(YoutubeDLError::IOError(_)))
            },
            DirEvent::Canonical(Ok(p)) => r matches DirAction::Done(Ok(p2)) && p2 == p,
            DirEvent::Canonical(Err(e)) => r matches DirAction::Done(
                Err(YoutubeDLError::IOError(e2)),
            ) && e2 == e,
        },
{
    match event {
        DirEvent::Exists(exists) => {
            if exists {
                DirAction::CheckIsDir
            } else {
                DirAction::CreateAll
            }
        },
        DirEvent::Created(Ok(())) => DirAction::CheckIsDir,
        DirEvent::Created(Err(e)) => DirAction::Done(Err(YoutubeDLError::IOError(e))),
        DirEvent::IsDir(is_dir) => {
            if is_dir {
                DirAction::Canonicalize
            } else {
                DirAction::Done(
                    Err(YoutubeDLError::IOError(other_io_error("path is not a directory"))),
                )
            }
        },
        DirEvent::Canonical(Ok(p)) => DirAction::Done(Ok(p)),
        DirEvent::Canonical(Err(e)) => DirAction::Done(Err(YoutubeDLError::IOError(e))),
    }
}

} // verus!
