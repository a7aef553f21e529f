//! POSIX error codes and the result type every handler returns.

use vstd::prelude::*;

verus! {

/// No such file or directory.
pub const ENOENT: i32 = 2;

/// Input/output error: the reply for a handler that ended abnormally.
pub const EIO: i32 = 5;

/// Permission denied.
pub const EACCES: i32 = 13;

/// Function not implemented: the reply for a verb that nothing handles.
pub const ENOSYS: i32 = 38;

/// The result of a handler: a payload, or one of the POSIX error codes.
pub type ErrnoResult<T> = Result<T, i32>;

} // verus!
