//! Structured failures of the boot-selection operations.

use vstd::prelude::*;

verus! {

/// A failure of a firmware-backed boot-selection operation, one kind per
/// failure of the underlying firmware library; I/O causes are carried as
/// text so a caller can log them.
///
/// "Platform unsupported" is deliberately not here: it is a normal boolean
/// answer of `is_supported`, never a failure.
#[derive(Debug, Clone)]
pub enum StartupDiskError {
    /// The firmware metadata could not be parsed.
    Parse,
    /// The new contents did not fit in the nvram section.
    SectionTooBig,
    /// Writing the new contents back failed.
    Apply(String),
    /// A value lay outside the range the firmware accepts.
    OutOfRange,
    /// The stored boot target did not name a single candidate.
    Ambiguous,
    /// The nvram device could not be read.
    NvramRead(String),
    /// The disk holding the volume groups could not be read.
    DiskRead(String),
    /// No volume matched the requested boot target.
    VolumeNotFound,
}

} // verus!
