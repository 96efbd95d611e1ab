//! Native status codes and the errors they turn into.
use vstd::prelude::*;

verus! {

/// The status every native entry point reports on success.
pub const FT_Err_Ok: i32 = 0;

/// Why an operation of this library failed.
#[derive(Clone, Copy, Debug, PartialEq, Eq, Structural)]
pub enum Error {
    /// The runtime could not be created or set up; carries the native status.
    Initialization(i32),
    /// A query or an open on an existing object failed; carries the native status.
    Native(i32),
    /// A path holds a zero byte at this offset and cannot be handed over as a C string.
    Encoding(usize),
}

/// Turns a native status into a result: `Ok` for success, the status itself otherwise.
pub fn try_dispatch(code: i32) -> (result: Result<(), i32>)
    ensures
        result == (if code == FT_Err_Ok {
            Ok::<(), i32>(())
        } else {
            Err::<(), i32>(code)
        }),
{
    if code == FT_Err_Ok {
        Ok(())
    } else {
        Err(code)
    }
}

} // verus!
