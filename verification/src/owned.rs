//! Objects the SDK hands over to the caller, who must release each exactly once.
use vstd::prelude::*;

use crate::error::Error;

verus! {

/// A non-null pointer or handle to an object that the SDK allocated and
/// that its owner releases with the matching `*_Release` call.
pub struct OwnedObject {
    ptr: usize,
}

impl View for OwnedObject {
    type V = usize;

    closed spec fn view(&self) -> usize {
        self.ptr
    }
}

impl OwnedObject {
    #[verifier::type_invariant]
    spec fn non_null(self) -> bool {
        self.ptr != 0
    }

    /// Takes ownership of an object the SDK handed out; `Error::Null` for a null one.
    pub fn from_raw(ptr: usize) -> (r: Result<OwnedObject, Error>)
        ensures
            r is Ok <==> ptr != 0,
            r matches Ok(o) ==> o@ == ptr,
            r matches Err(e) ==> e == Error::Null,
    {
        if ptr == 0 {
            Err(Error::Null)
        } else {
            Ok(OwnedObject { ptr })
        }
    }

    /// The object's pointer, still owned.
    pub fn as_ptr(&self) -> (p: usize)
        ensures
            p == self@,
            p != 0,
    {
        proof {
            use_type_invariant(self);
        }
        self.ptr
    }

    /// Gives up ownership and hands the pointer back.
    pub fn into_raw(self) -> (p: usize)
        ensures
            p == self@,
            p != 0,
    {
        proof {
            use_type_invariant(&self);
        }
        self.ptr
    }
}

/// The outcome of an SDK call that copies an object out to the caller: the
/// SDK's error when `res` reports one, else ownership of the object, or
/// `Error::Null` when the SDK reported success but handed out nothing.
pub fn owned_from_call(res: i32, ptr: usize) -> (r: Result<OwnedObject, Error>)
    ensures
        res != crate::error::EOS_SUCCESS ==> r == Err::<OwnedObject, Error>(Error::Eos(res)),
        res == crate::error::EOS_SUCCESS && ptr == 0 ==> r == Err::<OwnedObject, Error>(Error::Null),
        res == crate::error::EOS_SUCCESS && ptr != 0 ==> (r matches Ok(o) && o@ == ptr),
{
    crate::error::ok(res)?;
    OwnedObject::from_raw(ptr)
}

} // verus!
