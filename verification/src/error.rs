//! Errors, and the two conversions from the foreign layer's conventions.

use vstd::prelude::*;

verus! {

/// Why an operation failed.
#[derive(Debug, Clone, Copy, PartialEq, Eq, Structural)]
pub enum Error {
    /// The foreign layer handed back no handle: the object was not found, an
    /// argument was refused, or memory ran out. `errno` tells which.
    Allocation { errno: i32 },
    /// A foreign operation reported the nonzero status `code`.
    System { code: i32 },
    /// A string of the caller holds a zero byte and cannot be passed on.
    InvalidInput,
}

/// The platform's number for "invalid argument".
pub open spec fn spec_einval() -> i32 {
    22
}

/// `libc::EINVAL`, which is 22 on Linux.
#[verifier::external_body]
fn einval() -> (r: i32)
    ensures
        r == spec_einval(),
{
    libc::EINVAL
}

impl Error {
    /// The platform error number that this error stands for.
    pub open spec fn spec_errno(self) -> i32 {
        match self {
            Error::Allocation { errno } => errno,
            Error::System { code } => code,
            Error::InvalidInput => spec_einval(),
        }
    }

    /// The platform error number that this error stands for: the number
    /// attached to it, and "invalid argument" for a refused string.
    pub fn errno(&self) -> (r: i32)
        ensures
            r == self.spec_errno(),
    {
        match self {
            Error::Allocation { errno } => *errno,
            Error::System { code } => *code,
            Error::InvalidInput => einval(),
        }
    }
}

/// A handle of the foreign layer that is known not to be null.
#[derive(Debug, Clone, Copy, PartialEq, Eq, Structural)]
pub struct Handle {
    addr: usize,
}

impl Handle {
    #[verifier::type_invariant]
    spec fn nonnull(self) -> bool {
        self.addr != 0
    }

    /// The address that the foreign layer gave.
    pub closed spec fn spec_addr(self) -> usize {
        self.addr
    }

    /// Takes an address that the foreign layer returned: a handle, unless
    /// the address is null.
    pub fn new(addr: usize) -> (r: Option<Handle>)
        ensures
            match r {
                Some(h) => addr != 0 && h.spec_addr() == addr,
                None => addr == 0,
            },
    {
        if addr == 0 {
            None
        } else {
            Some(Handle { addr })
        }
    }

    /// The address that the foreign layer gave; never zero.
    pub fn addr(&self) -> (r: usize)
        ensures
            r == self.spec_addr(),
            r != 0,
    {
        proof {
            use_type_invariant(self);
        }
        self.addr
    }
}

/// What a foreign constructor's answer means: the object that it made, or,
/// where it made none, an allocation error that carries the platform error
/// number `errno`.
pub open spec fn spec_try_alloc<T>(made: Option<T>, errno: i32) -> Result<T, Error> {
    match made {
        Some(t) => Ok(t),
        None => Err(Error::Allocation { errno }),
    }
}

/// Converts the answer of a foreign constructor. `made` is what it returned,
/// nothing standing for a null pointer, and `errno` the platform error number
/// read right after the call.
pub fn try_alloc<T>(made: Option<T>, errno: i32) -> (r: Result<T, Error>)
    ensures
        r == spec_try_alloc(made, errno),
{
    match made {
        Some(t) => Ok(t),
        None => Err(Error::Allocation { errno }),
    }
}

} // verus!
