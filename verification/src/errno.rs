//! POSIX error codes surfaced by this core.

use vstd::prelude::*;

verus! {

/// The errno values this core can report, with their standard numeric codes
/// available through [`Errno::code`].
#[derive(Clone, Copy, PartialEq, Eq, Structural, Debug)]
pub enum Errno {
    /// Operation not permitted (direction misuse on an endpoint).
    EPERM,
    /// No such entry in an interest set.
    ENOENT,
    /// No such device or address (non-blocking open with the peer absent).
    ENXIO,
    /// Bad resource identifier.
    EBADF,
    /// Resource temporarily unavailable (non-blocking backpressure).
    EAGAIN,
    /// The entry already exists in an interest set.
    EEXIST,
    /// Invalid argument or unsupported operation.
    EINVAL,
    /// Broken pipe: no reader remains and nothing was transferred.
    EPIPE,
}

impl Errno {
    /// The standard numeric value of the error code.
    pub fn code(self) -> (r: u32)
        ensures
            r == self.spec_code(),
    {
        match self {
            Errno::EPERM => 1,
            Errno::ENOENT => 2,
            Errno::ENXIO => 6,
            Errno::EBADF => 9,
            Errno::EAGAIN => 11,
            Errno::EEXIST => 17,
            Errno::EINVAL => 22,
            Errno::EPIPE => 32,
        }
    }

    /// Numeric value of each code, for contracts.
    pub open spec fn spec_code(self) -> u32 {
        match self {
            Errno::EPERM => 1,
            Errno::ENOENT => 2,
            Errno::ENXIO => 6,
            Errno::EBADF => 9,
            Errno::EAGAIN => 11,
            Errno::EEXIST => 17,
            Errno::EINVAL => 22,
            Errno::EPIPE => 32,
        }
    }
}

} // verus!
