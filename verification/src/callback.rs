//! Completion callbacks: each is handed out at most once, when the SDK
//! reports that the call it belongs to has finished.
use vstd::prelude::*;

use crate::error::{result_with, result_with_spec, Error};

verus! {

/// A callback waiting for the SDK to complete a call. The wrapper owns it
/// until the SDK reports completion, and hands it out exactly once.
pub struct CallbackOnce<F> {
    f: Option<F>,
}

impl<F> CallbackOnce<F> {
    /// The callback, while it has not been handed out.
    pub closed spec fn pending(&self) -> Option<F> {
        self.f
    }

    /// Takes charge of a callback.
    pub fn new(f: F) -> (c: CallbackOnce<F>)
        ensures
            c.pending() == Some(f),
    {
        CallbackOnce { f: Some(f) }
    }

    /// Whether the callback is still waiting.
    pub fn is_pending(&self) -> (b: bool)
        ensures
            b == self.pending() is Some,
    {
        self.f.is_some()
    }

    /// The SDK reported completion with result code `res` and the value
    /// `info`: hands out the callback together with the outcome to give it,
    /// the first time only.
    pub fn complete<T>(&mut self, res: i32, info: T) -> (r: Option<(F, Result<T, Error>)>)
        ensures
            final(self).pending() is None,
            r == completion(old(self).pending(), res, info),
    {
        match self.f.take() {
            Some(f) => Some((f, result_with(res, info))),
            None => None,
        }
    }
}

/// What completing a callback that is in the state `pending` hands out.
pub open spec fn completion<F, T>(pending: Option<F>, res: i32, info: T) -> Option<(F, Result<T, Error>)> {
    match pending {
        Some(f) => Some((f, result_with_spec(res, info))),
        None => None,
    }
}

/// A callback is handed out by its first completion, with the outcome the
/// result code stands for, and never again: completing the state that the
/// first completion leaves behind gives nothing.
pub proof fn law_callback_at_most_once<F, T>(f: F, res1: i32, info1: T, res2: i32, info2: T)
    ensures
        completion(Some(f), res1, info1) == Some((f, result_with_spec(res1, info1))),
        completion::<F, T>(None, res2, info2) is None,
{
}

} // verus!
