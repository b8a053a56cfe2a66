//! Decisions of the document handle guard, through which every native result passes.
//!
//! After a failed native call the document handle keeps an error flag that must be read and
//! reset before the next call, or every later call on the document fails. The guard reads the
//! flag's detail and resets it exactly when [`needs_reset`] says so, translates the status with
//! [`crate::error::from`], and explains null pointers with [`pointer_result`].
use crate::error::{Error, SUCCESS};
use vstd::prelude::*;

verus! {

/// Returns whether a native call that returned `status` failed, so that the guard must read the
/// handle's error detail and reset its error flag before any further native call.
pub fn needs_reset(status: u64) -> (r: bool)
    ensures
        r == (status != SUCCESS),
{
    status != SUCCESS
}

/// The guard's verdict on a pointer that a native call returned, passed as `Some` when it is not
/// null. A null pointer is explained by the handle's last error, `last` (the translated status
/// that the handle reports): where the handle reports none, the null pointer is taken for a
/// failed allocation.
pub fn pointer_result<T>(ptr: Option<T>, last: Result<(), Error>) -> (r: Result<T, Error>)
    ensures
        ptr matches Some(p) ==> r == Ok::<T, Error>(p),
        ptr is None ==> (last matches Err(e) ==> r == Err::<T, Error>(e)),
        ptr is None && last is Ok ==> r == Err::<T, Error>(Error::AllocationFailed),
{
    match ptr {
        Some(p) => Ok(p),
        None => match last {
            Ok(()) => Err(Error::AllocationFailed),
            Err(e) => Err(e),
        },
    }
}

} // verus!
