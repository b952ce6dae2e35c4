//! Linux error numbers, as the guest sees them.

use vstd::prelude::*;

verus! {

/// An error number.
pub type Errno = u64;

/// Nothing to read now.
pub const EWOULDBLOCK: Errno = 11;

pub const EACCES: Errno = 13;

pub const ENOSPC: Errno = 28;

pub const ENOSYS: Errno = 38;

pub const ENOTSOCK: Errno = 88;

pub const EDESTADDRREQ: Errno = 89;

pub const EPROTONOSUPPORT: Errno = 93;

pub const ESOCKTNOSUPPORT: Errno = 94;

pub const EAFNOSUPPORT: Errno = 97;

pub const EISCONN: Errno = 106;

pub const ENOTCONN: Errno = 107;

} // verus!
