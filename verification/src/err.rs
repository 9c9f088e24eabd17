//! Errors produced in this crate, to help users figure out what went wrong.
//!
//! Every operation on a mapping or on its lock returns a discriminated
//! result; nothing waits implicitly. OS status codes are mapped into the
//! taxonomy by their numeric value, and unknown codes are preserved in
//! [`Error::OS_Err`] so the caller can still look at them.

use vstd::prelude::*;

verus! {

/// Errors used with memory-mapped files.
#[allow(non_camel_case_types)]
#[derive(Clone, Copy, Debug, PartialEq, Eq, Structural)]
pub enum Error {
    /// Readlocked, don't write.
    ReadLocked,
    /// Writelocked, don't touch.
    WriteLocked,
    /// Uninitialized: the control word still bears the unpublished sentinel.
    Uninitialized,
    /// The reader count is saturated; no further shared locks until one is released.
    MaxReaders,
    /// The requested write was larger than the payload size.
    NotEnoughMemory,
    /// No mapping opened, closed after use, or a write through a read-only handle.
    MMF_NotFound,
    /// Something else was racing between checking and acquiring the lock.
    LockViolation,
    /// The spin loop exhausted its budget without acquiring the lock.
    MaxTriesReached,
    /// Invariant-violation catch-all, such as an unlock without a prior lock.
    GeneralFailure,
    /// Generic OS error that we can't do much with other than preserving the code.
    OS_Err(i32),
    /// The OS signalled success as a "soft" error; treated as success at call sites.
    OS_OK(i32),
}

/// Thin wrapper type for [`Result`]s this crate produces.
pub type MMFResult<T> = Result<T, Error>;

/// The numeric status code the OS raises when access is denied, as it is
/// when a process asks for a view longer than the mapping object behind it.
pub const ERROR_ACCESS_DENIED: i32 = 5;

/// The error that a numeric OS status code stands for: the handful of codes
/// the taxonomy recognizes map to their own variants, code zero is the OS
/// reporting success as an error, and every other code is preserved as-is.
pub open spec fn error_of_code(code: i32) -> Error {
    if code == 30 {
        Error::ReadLocked
    } else if code == 19 {
        Error::WriteLocked
    } else if code == 8 {
        Error::NotEnoughMemory
    } else if code == 9 {
        Error::Uninitialized
    } else if code == 2 {
        Error::MMF_NotFound
    } else if code == 33 {
        Error::LockViolation
    } else if code == 0 {
        Error::OS_OK(0)
    } else {
        Error::OS_Err(code)
    }
}

impl From<i32> for Error {
    /// Map a numeric OS status code into the taxonomy.
    fn from(value: i32) -> (r: Error) {
        if value == 30 {
            Error::ReadLocked
        } else if value == 19 {
            Error::WriteLocked
        } else if value == 8 {
            Error::NotEnoughMemory
        } else if value == 9 {
            Error::Uninitialized
        } else if value == 2 {
            Error::MMF_NotFound
        } else if value == 33 {
            Error::LockViolation
        } else if value == 0 {
            Error::OS_OK(0)
        } else {
            Error::OS_Err(value)
        }
    }
}

impl vstd::std_specs::convert::FromSpecImpl<i32> for Error {
    open spec fn obeys_from_spec() -> bool {
        true
    }

    open spec fn from_spec(v: i32) -> Error {
        error_of_code(v)
    }
}

impl From<u32> for Error {
    /// OS status registers are often read as unsigned; the value is the same
    /// 32-bit pattern an `HRESULT`-style signed code would carry.
    fn from(value: u32) -> (r: Error) {
        Error::from(value as i32)
    }
}

impl vstd::std_specs::convert::FromSpecImpl<u32> for Error {
    open spec fn obeys_from_spec() -> bool {
        true
    }

    open spec fn from_spec(v: u32) -> Error {
        error_of_code(v as i32)
    }
}

} // verus!
