//! What opening a file decides before the file system and the descriptor
//! table take over.
use vstd::prelude::*;

verus! {

/// Open flag: close the descriptor in a spawned child.
pub const O_CLOEXEC: u32 = 0o2000000;

/// How a file is to be opened and installed.
#[derive(Clone, Copy, Debug, PartialEq, Eq, Structural)]
pub struct OpenRequest {
    pub flags: u32,
    /// The requested mode with the process's umask cleared from it.
    pub mode: u16,
    /// Whether the new descriptor is closed in a spawned child.
    pub close_on_spawn: bool,
}

/// Plans opening a file with `flags` and `mode` for a process whose umask
/// is `umask`.
pub fn do_openat(flags: u32, mode: u16, umask: u16) -> (r: OpenRequest)
    ensures
        r.flags == flags,
        r.mode == mode & !umask,
        r.close_on_spawn == (flags & O_CLOEXEC != 0),
{
    OpenRequest { flags, mode: mode & !umask, close_on_spawn: flags & O_CLOEXEC != 0 }
}

} // verus!
