//! Login requests: the credentials handed to the SDK's auth and connect logins.
use vstd::prelude::*;
use vstd::string::*;

use crate::cstr::{c_string, has_nul, is_nul_error_of, optional_c_string, terminated};
use crate::error::Error;

verus! {

/// `EOS_LCT_ExchangeCode`: log in with an exchange code from the launcher.
pub const LOGIN_CREDENTIAL_EXCHANGE_CODE: i32 = 1;
/// `EOS_ECT_EPIC`: the credential is an Epic Games one.
pub const EXTERNAL_CREDENTIAL_EPIC: i32 = 0;
/// `EOS_ECT_OPENID_ACCESS_TOKEN`: an OpenID Connect access token.
pub const EXTERNAL_CREDENTIAL_OPENID_ACCESS_TOKEN: i32 = 9;

/// An auth login request as the SDK reads it (credentials and options).
pub struct AuthLoginRequest {
    /// The credential's id; `None` (null) when the credential type needs none.
    pub id: Option<Vec<u8>>,
    pub token: Vec<u8>,
    pub credential_type: i32,
    /// Address of system auth credential options; 0 (null) for none.
    pub system_auth_credentials_options: usize,
    pub external_type: i32,
    pub scope_flags: u32,
    pub login_flags: u64,
}

impl AuthLoginRequest {
    /// The request to log in with an Epic exchange code: no id, no system
    /// options, Epic credentials, and no scope or login flags. Fails with
    /// `Error::Nul` when the code holds a NUL character.
    pub fn exchange_code(exchange_code: &str) -> (r: Result<AuthLoginRequest, Error>)
        ensures
            r is Ok <==> !has_nul(exchange_code.spec_bytes()),
            r matches Err(e) ==> (e matches Error::Nul(n) && is_nul_error_of(n, exchange_code.spec_bytes())),
            r matches Ok(q) ==> {
                &&& q.id is None
                &&& q.token@ == terminated(exchange_code.spec_bytes())
                &&& q.credential_type == LOGIN_CREDENTIAL_EXCHANGE_CODE
                &&& q.system_auth_credentials_options == 0
                &&& q.external_type == EXTERNAL_CREDENTIAL_EPIC
                &&& q.scope_flags == 0
                &&& q.login_flags == 0
            },
    {
        let token = c_string(exchange_code)?;
        Ok(AuthLoginRequest {
            id: None,
            token,
            credential_type: LOGIN_CREDENTIAL_EXCHANGE_CODE,
            system_auth_credentials_options: 0,
            external_type: EXTERNAL_CREDENTIAL_EPIC,
            scope_flags: 0,
            login_flags: 0,
        })
    }
}

/// Extra user information of a connect login (`EOS_Connect_UserLoginInfo`).
pub struct UserLoginInfo {
    pub display_name: Vec<u8>,
    /// A Nintendo NSA id token; `None` (null) when not logging in through Nintendo.
    pub nsa_id_token: Option<Vec<u8>>,
}

/// A connect login request as the SDK reads it.
pub struct ConnectLoginRequest {
    pub token: Vec<u8>,
    pub credential_type: i32,
    /// User information; `None` (null) when no display name is given.
    pub user_login_info: Option<UserLoginInfo>,
}

impl ConnectLoginRequest {
    /// The request to log in with an OpenID access token, with user
    /// information only when a display name is given (and then no NSA id
    /// token). Fails with `Error::Nul` for the token, then the display name,
    /// when it holds a NUL character.
    pub fn openid_access_token(token: &str, display_name: Option<&str>) -> (r: Result<ConnectLoginRequest, Error>)
        ensures
            r is Ok <==> !has_nul(token.spec_bytes()) && (display_name matches Some(d) ==> !has_nul(
                d.spec_bytes(),
            )),
            has_nul(token.spec_bytes()) ==> (r matches Err(Error::Nul(n)) && is_nul_error_of(n, token.spec_bytes())),
            display_name matches Some(d) ==> (!has_nul(token.spec_bytes()) && has_nul(d.spec_bytes()) ==> (
            r matches Err(Error::Nul(n)) && is_nul_error_of(n, d.spec_bytes()))),
            r matches Ok(q) ==> {
                &&& q.token@ == terminated(token.spec_bytes())
                &&& q.credential_type == EXTERNAL_CREDENTIAL_OPENID_ACCESS_TOKEN
                &&& display_name is None ==> q.user_login_info is None
                &&& display_name matches Some(d) ==> (q.user_login_info matches Some(u)
                    && u.display_name@ == terminated(d.spec_bytes()) && u.nsa_id_token is None)
            },
    {
        let token = c_string(token)?;
        let name = optional_c_string(display_name)?;
        let user_login_info = match name {
            Some(display_name) => Some(UserLoginInfo { display_name, nsa_id_token: None }),
            None => None,
        };
        Ok(ConnectLoginRequest {
            token,
            credential_type: EXTERNAL_CREDENTIAL_OPENID_ACCESS_TOKEN,
            user_login_info,
        })
    }
}

} // verus!
