//! A safety layer over a native desktop windowing system.
//!
//! The two load-bearing pieces are the device-context binding protocol
//! (`gdi::Canvas` and its bitmap/brush collaborators) and the window-message
//! routing registry (`registry`). Both are modelled over plain values: an OS
//! object reference appears as a nonzero numeric [`Handle`], and the outcome
//! of a native call enters a function as an argument, so that every decision
//! the layer makes about such an outcome is stated and checked here.

pub mod class;
pub mod cursor;
pub mod dialog;
pub mod gdi;
pub mod icon;
pub mod message;
pub mod messagebox;
pub mod paint;
pub mod rect;
pub mod registry;
pub mod window;

use vstd::prelude::*;

verus! {

/// An operating-system error, carried as the platform's last-error code.
#[derive(Clone, Copy, Debug, PartialEq, Eq, Structural)]
pub struct Error {
    code: i32,
}

impl Error {
    /// Wraps a last-error code reported by the platform.
    pub fn from_os_code(code: i32) -> (r: Error)
        ensures
            r.spec_code() == code,
    {
        Error { code }
    }

    /// The platform error code this error carries.
    pub fn code(&self) -> (r: i32)
        ensures
            r == self.spec_code(),
    {
        self.code
    }

    /// The carried code, for use in contracts.
    pub closed spec fn spec_code(&self) -> i32 {
        self.code
    }
}

/// A non-nullable reference to an operating-system object, kept as the
/// object's numeric identity. The invariant is that the identity is never
/// the null value 0: construction goes through [`non_null_or_err`], which
/// refuses 0.
#[derive(Clone, Copy, Debug, PartialEq, Eq, Structural)]
pub struct Handle {
    value: usize,
}

impl Handle {
    /// The numeric identity, for use in contracts.
    pub closed spec fn id(&self) -> usize {
        self.value
    }

    /// The numeric identity of the underlying object.
    pub fn value(&self) -> (r: usize)
        ensures
            r == self.id(),
    {
        self.value
    }
}

/// Checks the value an object-returning native call handed back. A null
/// value (0) means the call failed: the platform's last-error code is
/// returned as the error. Any other value is a live object reference.
pub fn non_null_or_err(value: usize, last_error: i32) -> (r: Result<Handle, Error>)
    ensures
        value != 0 <==> r is Ok,
        r is Ok ==> r->Ok_0.id() == value,
        r is Err ==> r->Err_0.spec_code() == last_error,
{
    if value != 0 {
        Ok(Handle { value })
    } else {
        Err(Error::from_os_code(last_error))
    }
}

/// Checks the boolean result of a native call. Zero means failure: the
/// platform's last-error code is returned as the error.
pub fn ok_or_last_err(result: i32, last_error: i32) -> (r: Result<(), Error>)
    ensures
        result != 0 <==> r is Ok,
        r is Err ==> r->Err_0.spec_code() == last_error,
{
    if result != 0 {
        Ok(())
    } else {
        Err(Error::from_os_code(last_error))
    }
}

/// What a failed release means. A destroy/release call that reports failure
/// leaves the object in an unknown state (still selected somewhere, or
/// already invalid): that is a programming error, not a runtime condition,
/// and the caller must halt rather than continue on corrupted handle state.
#[derive(Clone, Copy, Debug, PartialEq, Eq, Structural)]
pub enum ReleaseVerdict {
    /// The object was released; its handle must not be used again.
    Released,
    /// The platform refused the release: the invariant that the object was
    /// unused and valid did not hold. Never recoverable, never a silent no-op.
    Fatal,
}

/// Judges the boolean result of a native destroy/release call: zero is a
/// fatal invariant violation, anything else a completed release.
pub fn check_release(result: i32) -> (r: ReleaseVerdict)
    ensures
        r == ReleaseVerdict::Fatal <==> result == 0,
{
    if result == 0 {
        ReleaseVerdict::Fatal
    } else {
        ReleaseVerdict::Released
    }
}

} // verus!
