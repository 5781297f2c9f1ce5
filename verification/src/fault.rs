//! How a failed operation on a track's file is reported.

use vstd::prelude::*;
use vstd::string::StringExecFns;

verus! {

/// What was being done to the file.
#[derive(Debug, Clone, Copy, PartialEq, Eq, Structural)]
pub enum Operation {
    /// Reading the file's tag.
    Read,
    /// Writing the file's tag.
    Write,
    /// Removing the file.
    Delete,
}

/// What went wrong.
#[derive(Debug, Clone, Copy, PartialEq, Eq, Structural)]
pub enum FaultKind {
    /// The file is not there.
    NotFound,
    /// The file may not be touched.
    PermissionDenied,
    /// The file system takes no writes.
    ReadOnlyFilesystem,
    /// Another failure of the file system.
    OtherIo,
    /// No failure of the file system: the file is not what it should be.
    NotIo,
}

/// Whether a failure of kind `kind` during `op` is none after all: a file
/// that is to be removed and is not there.
pub open spec fn forgiven(op: Operation, kind: FaultKind) -> bool {
    op == Operation::Delete && kind == FaultKind::NotFound
}

/// The words for a failure of kind `kind` during `op`, which the file
/// system describes by `text`. What may not be touched is forbidden; so is
/// what cannot be written, when something was to be changed. A tag that
/// cannot be read or written for another reason than the file system is
/// corrupted. Everything else is told in the file system's words.
pub open spec fn words_for(op: Operation, kind: FaultKind, text: Seq<char>) -> Seq<char> {
    match kind {
        FaultKind::NotFound => if op == Operation::Delete {
            text
        } else {
            "Not Found"@
        },
        FaultKind::PermissionDenied => "Forbidden"@,
        FaultKind::ReadOnlyFilesystem => if op == Operation::Read {
            text
        } else {
            "Forbidden"@
        },
        FaultKind::OtherIo => text,
        FaultKind::NotIo => if op == Operation::Delete {
            text
        } else {
            "Corrupted File"@
        },
    }
}

/// Whether a failure of kind `kind` during `op` is none after all.
pub fn forgives(op: Operation, kind: FaultKind) -> (b: bool)
    ensures
        b == forgiven(op, kind),
{
    match (op, kind) {
        (Operation::Delete, FaultKind::NotFound) => true,
        _ => false,
    }
}

/// The words for a failure of kind `kind` during `op`, which the file
/// system describes by `text`.
pub fn words(op: Operation, kind: FaultKind, text: String) -> (w: String)
    ensures
        w@ == words_for(op, kind, text@),
{
    match kind {
        FaultKind::NotFound => match op {
            Operation::Delete => text,
            _ => String::from_str("Not Found"),
        },
        FaultKind::PermissionDenied => String::from_str("Forbidden"),
        FaultKind::ReadOnlyFilesystem => match op {
            Operation::Read => text,
            _ => String::from_str("Forbidden"),
        },
        FaultKind::OtherIo => text,
        FaultKind::NotIo => match op {
            Operation::Delete => text,
            _ => String::from_str("Corrupted File"),
        },
    }
}

} // verus!
