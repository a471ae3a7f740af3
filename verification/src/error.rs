//! The ways in which decoding a frame can fail.

use vstd::prelude::*;

verus! {

/// Why a frame was refused. Decoding is strict: the first fault found ends
/// it, and nothing of the frame is handed out.
#[derive(Clone, Copy, Debug, PartialEq, Eq, Hash)]
pub enum ProtocolError {
    /// The buffer ends before the control header or the command's
    /// fixed-size struct does.
    Truncated,
    /// The command identifier names no command that this protocol carries.
    UnknownCommand,
    /// The bytes after the fixed-size struct are not what the command
    /// announces.
    Malformed,
    /// The command carries a handle and none came with the frame.
    MissingHandle,
    /// A handle came with a frame whose command carries none.
    HandleNotExpected,
}

} // verus!
