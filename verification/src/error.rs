//! Error values and the mapping from EOS result codes.
use vstd::prelude::*;

verus! {

/// The EOS result code that reports success (`EOS_Success`).
pub const EOS_SUCCESS: i32 = 0;

/// Position of the first NUL byte found in a string handed to the SDK,
/// together with the bytes of that string.
#[derive(Clone, Debug, PartialEq, Eq)]
pub struct NulError {
    pub position: usize,
    pub bytes: Vec<u8>,
}

/// Errors reported by the wrapper.
#[derive(Clone, Debug, PartialEq, Eq)]
pub enum Error {
    /// The SDK returned a result code other than `EOS_Success`.
    Eos(i32),
    /// A string handed to the SDK holds a NUL byte.
    Nul(NulError),
    /// The SDK handed back a null pointer or handle, or a value did not fit.
    Null,
}

/// What an SDK result code means: success for `EOS_SUCCESS`, the SDK's error otherwise.
pub open spec fn ok_spec(res: i32) -> Result<(), Error> {
    if res == EOS_SUCCESS {
        Ok(())
    } else {
        Err(Error::Eos(res))
    }
}

/// Turns an SDK result code into `Ok(())` on success and `Err(Error::Eos(code))` otherwise.
pub fn ok(res: i32) -> (r: Result<(), Error>)
    ensures
        r == ok_spec(res),
{
    if res == EOS_SUCCESS {
        Ok(())
    } else {
        Err(Error::Eos(res))
    }
}

} // verus!

verus! {

/// What an SDK call that answered `res` and produced `v` gives back.
pub open spec fn result_with_spec<T>(res: i32, v: T) -> Result<T, Error> {
    if res == EOS_SUCCESS {
        Ok(v)
    } else {
        Err(Error::Eos(res))
    }
}

/// The value an SDK call produced when its result code `res` reports
/// success, the SDK's error otherwise. Completion callbacks report their
/// outcome the same way.
pub fn result_with<T>(res: i32, v: T) -> (r: Result<T, Error>)
    ensures
        r == result_with_spec(res, v),
{
    if res == EOS_SUCCESS {
        Ok(v)
    } else {
        Err(Error::Eos(res))
    }
}

/// An SDK call succeeds exactly when its result code is `EOS_SUCCESS`, and
/// then hands back what it produced.
pub proof fn law_success_iff_code<T>(res: i32, v: T)
    ensures
        result_with_spec(res, v) is Ok <==> res == EOS_SUCCESS,
        ok_spec(res) is Ok <==> res == EOS_SUCCESS,
        result_with_spec(res, v) matches Ok(w) ==> w == v,
        result_with_spec(res, v) matches Err(e) ==> e == Error::Eos(res),
{
}

} // verus!
