//! The kinds of failure that a run can end in.

use vstd::prelude::*;

verus! {

/// What kind of thing went wrong. The kind says how far the damage goes:
/// a fault of the configuration or of remote access ends the run before
/// anything is mirrored; a git operation or a subprocess fails on one tag.
#[derive(Clone, Copy, Debug, PartialEq, Eq, Structural)]
pub enum ErrorKind {
    /// A value of the configuration is missing or malformed.
    Configuration,
    /// The hosting service could not be asked, or gave no usable answer.
    RemoteAccess,
    /// A step on the local clone or its remotes failed.
    GitOperation,
    /// The post-sync command could not be run or ended badly.
    Subprocess,
}

} // verus!
