//! Modal dialogs launched without an owner window.
//!
//! As with window creation, the dialog's handle is unknown until the
//! native call is in flight, so the callback is registered under the
//! routing registry's sentinel key first
//! ([`crate::registry::Registry::register_pending`]); the trampoline's
//! decisions over the registry stand in [`crate::window::dlg_proc_enter`]
//! and [`crate::window::dlg_proc_exit`]. This module judges what the
//! native modal-dialog call returned.

use crate::Error;
use vstd::prelude::*;

verus! {

/// Judges the result of the native ownerless modal-dialog call: -1
/// reports a failed call, carrying the last-error code; any other value —
/// zero included, which older platforms return for compatibility — is the
/// value the dialog ended with.
pub fn show_outcome(result: isize, last_error: i32) -> (r: Result<isize, Error>)
    ensures
        result == -1 <==> r is Err,
        r matches Ok(v) ==> v == result,
        r matches Err(e) ==> e.spec_code() == last_error,
{
    if result == -1 {
        Err(Error::from_os_code(last_error))
    } else {
        Ok(result)
    }
}

} // verus!
