//! File paths as the native side wants them: bytes closed by a single zero.
use crate::status::Error;
use vstd::prelude::*;
use vstd::string::*;

verus! {

/// `at` is the offset of the first zero byte of `bytes`.
pub open spec fn first_nul(bytes: Seq<u8>, at: int) -> bool {
    &&& 0 <= at < bytes.len()
    &&& bytes[at] == 0
    &&& forall|j: int| 0 <= j < at ==> bytes[j] != 0
}

/// No byte of `bytes` is zero.
pub open spec fn nul_free(bytes: Seq<u8>) -> bool {
    forall|j: int| 0 <= j < bytes.len() ==> bytes[j] != 0
}

/// What `c_string` answers for a path made of `bytes`.
pub open spec fn encoded(bytes: Seq<u8>, result: Result<Vec<u8>, Error>) -> bool {
    match result {
        Ok(encoded) => nul_free(bytes) && encoded@ == bytes.push(0u8),
        Err(error) => error matches Error::Encoding(at) && first_nul(bytes, at as int),
    }
}

/// Encodes `path` as a C string: its bytes followed by one zero byte.
///
/// A path that already holds a zero byte cannot be told apart from its own
/// prefix on the native side, so it is refused with the offset of that byte.
pub fn c_string(path: &str) -> (result: Result<Vec<u8>, Error>)
    ensures
        encoded(path.spec_bytes(), result),
{
    let mut bytes = path.as_bytes_vec();
    let ghost given = bytes@;
    let mut at: usize = 0;
    while at < bytes.len()
        invariant
            given == path.spec_bytes(),
            bytes@ == given,
            at <= given.len(),
            forall|j: int| 0 <= j < at ==> given[j] != 0,
        decreases given.len() - at,
    {
        if bytes[at] == 0 {
            return Err(Error::Encoding(at));
        }
        at = at + 1;
    }
    bytes.push(0u8);
    Ok(bytes)
}

} // verus!
