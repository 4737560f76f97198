//! Account, user and continuance identifiers: opaque SDK handles.
use vstd::prelude::*;
use vstd::utf8::*;

use crate::cstr::until_nul;
use crate::error::{ok_spec, Error};
use crate::text::{c_text_lossy, string_from_call};

verus! {

/// Longest text form of an Epic account id (`EOS_EPICACCOUNTID_MAX_LENGTH`).
pub const EPIC_ACCOUNT_ID_MAX_LENGTH: usize = 32;
/// Longest text form of a product user id (`EOS_PRODUCTUSERID_MAX_LENGTH`).
pub const PRODUCT_USER_ID_MAX_LENGTH: usize = 32;

/// Size of the buffer that receives the text form of an Epic account id,
/// terminating NUL included.
pub const EPIC_ACCOUNT_ID_BUFFER_LEN: usize = 33;
/// Size of the buffer that receives the text form of a product user id,
/// terminating NUL included.
pub const PRODUCT_USER_ID_BUFFER_LEN: usize = 33;

/// An Epic account id: an opaque handle of the SDK (null when absent).
#[derive(Clone, Copy, Debug)]
pub struct EpicAccountId(usize);

/// A product user id: an opaque handle of the SDK (null when absent).
#[derive(Clone, Copy, Debug)]
pub struct ProductUserId(usize);

/// A continuance token handed out by a failed connect login.
#[derive(Clone, Copy, Debug)]
pub struct ContinuanceToken(usize);

impl View for EpicAccountId {
    type V = usize;

    closed spec fn view(&self) -> usize {
        self.0
    }
}

impl View for ProductUserId {
    type V = usize;

    closed spec fn view(&self) -> usize {
        self.0
    }
}

impl View for ContinuanceToken {
    type V = usize;

    closed spec fn view(&self) -> usize {
        self.0
    }
}

/// The fields of a connect login callback that this wrapper reads
/// (`EOS_Connect_LoginCallbackInfo`); handles are raw addresses, 0 for null.
#[derive(Clone, Copy, Debug)]
pub struct ConnectLoginCallbackInfo {
    pub result_code: i32,
    pub local_user_id: usize,
    pub continuance_token: usize,
}

impl EpicAccountId {
    /// Wraps a raw account id handle.
    pub fn from_raw(raw: usize) -> (id: EpicAccountId)
        ensures
            id@ == raw,
    {
        EpicAccountId(raw)
    }

    /// The outcome of parsing an account id: the handle the SDK produced when
    /// the SDK reports it valid, `Error::Null` otherwise.
    pub fn accept_parsed(raw: usize, is_valid: bool) -> (r: Result<EpicAccountId, Error>)
        ensures
            is_valid ==> (r matches Ok(id) && id@ == raw),
            !is_valid ==> r == Err::<EpicAccountId, Error>(Error::Null),
    {
        if is_valid {
            Ok(EpicAccountId(raw))
        } else {
            Err(Error::Null)
        }
    }

    /// The text form of an account id from the SDK's answer: its error, or
    /// the text it wrote into `buf`.
    pub fn string_from_buffer(res: i32, buf: &[u8]) -> (r: Result<String, Error>)
        ensures
            ok_spec(res) is Err ==> r == Err::<String, Error>(Error::Eos(res)),
            ok_spec(res) is Ok ==> (r matches Ok(s) && s@ == c_text_lossy(buf@)),
            ok_spec(res) is Ok && valid_utf8(until_nul(buf@)) ==> (r matches Ok(s) && s@ == decode_utf8(
                until_nul(buf@),
            )),
    {
        string_from_call(res, buf)
    }

    /// The raw handle.
    pub fn raw(self) -> (r: usize)
        ensures
            r == self@,
    {
        self.0
    }
}

impl ProductUserId {
    /// Wraps a raw product user id handle.
    pub fn from_raw(raw: usize) -> (id: ProductUserId)
        ensures
            id@ == raw,
    {
        ProductUserId(raw)
    }

    /// The outcome of parsing a product user id: the handle the SDK produced
    /// when the SDK reports it valid, `Error::Null` otherwise.
    pub fn accept_parsed(raw: usize, is_valid: bool) -> (r: Result<ProductUserId, Error>)
        ensures
            is_valid ==> (r matches Ok(id) && id@ == raw),
            !is_valid ==> r == Err::<ProductUserId, Error>(Error::Null),
    {
        if is_valid {
            Ok(ProductUserId(raw))
        } else {
            Err(Error::Null)
        }
    }

    /// The text form of a product user id from the SDK's answer: its error,
    /// or the text it wrote into `buf`.
    pub fn string_from_buffer(res: i32, buf: &[u8]) -> (r: Result<String, Error>)
        ensures
            ok_spec(res) is Err ==> r == Err::<String, Error>(Error::Eos(res)),
            ok_spec(res) is Ok ==> (r matches Ok(s) && s@ == c_text_lossy(buf@)),
            ok_spec(res) is Ok && valid_utf8(until_nul(buf@)) ==> (r matches Ok(s) && s@ == decode_utf8(
                until_nul(buf@),
            )),
    {
        string_from_call(res, buf)
    }

    /// The raw handle.
    pub fn raw(self) -> (r: usize)
        ensures
            r == self@,
    {
        self.0
    }
}

impl ContinuanceToken {
    /// The raw handle.
    pub fn raw(self) -> (r: usize)
        ensures
            r == self@,
    {
        self.0
    }

    /// The continuance token of a connect login callback, when it carries one.
    pub fn from_login_callback(info: &ConnectLoginCallbackInfo) -> (r: Option<ContinuanceToken>)
        ensures
            r is Some <==> info.continuance_token != 0,
            r matches Some(t) ==> t@ == info.continuance_token,
    {
        if info.continuance_token == 0 {
            None
        } else {
            Some(ContinuanceToken(info.continuance_token))
        }
    }
}

} // verus!
