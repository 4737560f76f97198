//! Options for creating a platform instance, in the form the SDK takes them.
use vstd::prelude::*;
use vstd::utf8::*;

use crate::cstr::{c_string, has_nul, is_nul_error_of, law_c_text_round_trip, optional_c_string, terminated, until_nul};
use crate::error::Error;
use crate::kinds::{eos_bool, eos_bool_spec};

verus! {

/// Settings of a platform instance.
pub struct PlatformOptions {
    pub product_id: String,
    pub sandbox_id: String,
    pub deployment_id: String,
    pub client_id: String,
    pub client_secret: String,
    pub is_server: bool,
    pub encryption_key: Option<String>,
    pub override_country_code: Option<String>,
    pub override_locale_code: Option<String>,
}

/// Platform settings as the SDK reads them: NUL-terminated strings, absent
/// ones as `None` (a null pointer), the server flag as an `EOS_Bool`, and
/// the settings this wrapper leaves at the SDK's defaults.
pub struct RawPlatformOptions {
    pub product_id: Vec<u8>,
    pub sandbox_id: Vec<u8>,
    pub deployment_id: Vec<u8>,
    pub client_id: Vec<u8>,
    pub client_secret: Vec<u8>,
    pub is_server: i32,
    pub encryption_key: Option<Vec<u8>>,
    pub override_country_code: Option<Vec<u8>>,
    pub override_locale_code: Option<Vec<u8>>,
    /// Platform creation flags (`EOS_PF_*`); none set.
    pub flags: u64,
    /// Cache directory; `None` (null) lets the SDK choose.
    pub cache_directory: Option<Vec<u8>>,
    /// Tick budget in milliseconds; 0 for no budget.
    pub tick_budget_in_milliseconds: u32,
    /// Address of RTC options; 0 (null) for none.
    pub rtc_options: usize,
    /// Handle of an integrated-platform options container; 0 (null) for none.
    pub integrated_platform_options_container: usize,
    /// Address of system-specific options; 0 (null) for none.
    pub system_specific_options: usize,
    /// Address of a task network timeout; 0 (null) for the SDK's default.
    pub task_network_timeout_seconds: usize,
}

/// The UTF-8 bytes of a string.
pub open spec fn utf8_of(s: String) -> Seq<u8> {
    encode_utf8(s@)
}

/// An optional string can become a C string (absent strings always can).
pub open spec fn optional_fits(s: Option<String>) -> bool {
    s matches Some(t) ==> !has_nul(utf8_of(t))
}

/// `c` is the C-string form of the optional string `s`.
pub open spec fn optional_is_c_form(c: Option<Vec<u8>>, s: Option<String>) -> bool {
    match s {
        None => c is None,
        Some(t) => c matches Some(v) && v@ == terminated(utf8_of(t)),
    }
}

/// `e` reports the NUL byte of the optional string `s`.
pub open spec fn optional_nul_error(e: Error, s: Option<String>) -> bool {
    s matches Some(t) && e matches Error::Nul(n) && is_nul_error_of(n, utf8_of(t))
}

impl PlatformOptions {
    /// Every string of these options can be handed to the SDK.
    pub open spec fn all_fit(&self) -> bool {
        &&& !has_nul(utf8_of(self.product_id))
        &&& !has_nul(utf8_of(self.sandbox_id))
        &&& !has_nul(utf8_of(self.deployment_id))
        &&& !has_nul(utf8_of(self.client_id))
        &&& !has_nul(utf8_of(self.client_secret))
        &&& optional_fits(self.encryption_key)
        &&& optional_fits(self.override_country_code)
        &&& optional_fits(self.override_locale_code)
    }

    /// `raw` is the SDK form of these options.
    pub open spec fn is_raw_form(&self, raw: RawPlatformOptions) -> bool {
        &&& raw.product_id@ == terminated(utf8_of(self.product_id))
        &&& raw.sandbox_id@ == terminated(utf8_of(self.sandbox_id))
        &&& raw.deployment_id@ == terminated(utf8_of(self.deployment_id))
        &&& raw.client_id@ == terminated(utf8_of(self.client_id))
        &&& raw.client_secret@ == terminated(utf8_of(self.client_secret))
        &&& raw.is_server == eos_bool_spec(self.is_server)
        &&& optional_is_c_form(raw.encryption_key, self.encryption_key)
        &&& optional_is_c_form(raw.override_country_code, self.override_country_code)
        &&& optional_is_c_form(raw.override_locale_code, self.override_locale_code)
        &&& raw.flags == 0
        &&& raw.cache_directory is None
        &&& raw.tick_budget_in_milliseconds == 0
        &&& raw.rtc_options == 0
        &&& raw.integrated_platform_options_container == 0
        &&& raw.system_specific_options == 0
        &&& raw.task_network_timeout_seconds == 0
    }

    /// `e` is the error for the first string of these options, in field
    /// order, that holds a NUL character.
    pub open spec fn is_first_nul_error(&self, e: Error) -> bool {
        if has_nul(utf8_of(self.product_id)) {
            e matches Error::Nul(n) && is_nul_error_of(n, utf8_of(self.product_id))
        } else if has_nul(utf8_of(self.sandbox_id)) {
            e matches Error::Nul(n) && is_nul_error_of(n, utf8_of(self.sandbox_id))
        } else if has_nul(utf8_of(self.deployment_id)) {
            e matches Error::Nul(n) && is_nul_error_of(n, utf8_of(self.deployment_id))
        } else if has_nul(utf8_of(self.client_id)) {
            e matches Error::Nul(n) && is_nul_error_of(n, utf8_of(self.client_id))
        } else if has_nul(utf8_of(self.client_secret)) {
            e matches Error::Nul(n) && is_nul_error_of(n, utf8_of(self.client_secret))
        } else if !optional_fits(self.encryption_key) {
            optional_nul_error(e, self.encryption_key)
        } else if !optional_fits(self.override_country_code) {
            optional_nul_error(e, self.override_country_code)
        } else {
            optional_nul_error(e, self.override_locale_code)
        }
    }

    /// The SDK form of these options; fails with `Error::Nul` for the first
    /// string, in field order, that holds a NUL character.
    pub fn to_raw(&self) -> (r: Result<RawPlatformOptions, Error>)
        ensures
            r is Ok <==> self.all_fit(),
            r matches Ok(raw) ==> self.is_raw_form(raw),
            r matches Ok(raw) ==> {
                &&& raw.product_id@ == terminated(encode_utf8(self.product_id@))
                &&& raw.sandbox_id@ == terminated(encode_utf8(self.sandbox_id@))
                &&& raw.deployment_id@ == terminated(encode_utf8(self.deployment_id@))
                &&& raw.client_id@ == terminated(encode_utf8(self.client_id@))
                &&& raw.client_secret@ == terminated(encode_utf8(self.client_secret@))
                &&& (raw.is_server == 1) == self.is_server
                &&& (raw.is_server == 0) == !self.is_server
                &&& (raw.encryption_key is None) == (self.encryption_key is None)
                &&& (raw.override_country_code is None) == (self.override_country_code is None)
                &&& (raw.override_locale_code is None) == (self.override_locale_code is None)
                &&& (self.encryption_key matches Some(k) ==> (raw.encryption_key matches Some(v) && v@ == terminated(
                    encode_utf8(k@),
                )))
                &&& (self.override_country_code matches Some(k) ==> (raw.override_country_code matches Some(v)
                    && v@ == terminated(encode_utf8(k@))))
                &&& (self.override_locale_code matches Some(k) ==> (raw.override_locale_code matches Some(v)
                    && v@ == terminated(encode_utf8(k@))))
                &&& raw.flags == 0
                &&& raw.cache_directory is None
                &&& raw.tick_budget_in_milliseconds == 0
                &&& raw.rtc_options == 0
                &&& raw.integrated_platform_options_container == 0
                &&& raw.system_specific_options == 0
                &&& raw.task_network_timeout_seconds == 0
            },
            r matches Err(e) ==> self.is_first_nul_error(e),
    {
        let product_id = c_string(self.product_id.as_str())?;
        let sandbox_id = c_string(self.sandbox_id.as_str())?;
        let deployment_id = c_string(self.deployment_id.as_str())?;
        let client_id = c_string(self.client_id.as_str())?;
        let client_secret = c_string(self.client_secret.as_str())?;
        let encryption_key = optional_c_string(as_opt_str(&self.encryption_key))?;
        let override_country_code = optional_c_string(as_opt_str(&self.override_country_code))?;
        let override_locale_code = optional_c_string(as_opt_str(&self.override_locale_code))?;
        Ok(RawPlatformOptions {
            product_id,
            sandbox_id,
            deployment_id,
            client_id,
            client_secret,
            is_server: eos_bool(self.is_server),
            encryption_key,
            override_country_code,
            override_locale_code,
            flags: 0,
            cache_directory: None,
            tick_budget_in_milliseconds: 0,
            rtc_options: 0,
            integrated_platform_options_container: 0,
            system_specific_options: 0,
            task_network_timeout_seconds: 0,
        })
    }
}

/// The text a C string field holds, read back as the SDK reads it.
pub open spec fn read_back(field: Seq<u8>) -> Seq<char> {
    decode_utf8(until_nul(field))
}

/// An optional C string field holds the optional text `s`: absent exactly
/// when `s` is, and otherwise reading back as `s`.
pub open spec fn optional_reads_back(field: Option<Vec<u8>>, s: Option<String>) -> bool {
    &&& field is None <==> s is None
    &&& s matches Some(t) ==> (field matches Some(v) && valid_utf8(until_nul(v@)) && read_back(v@) == t@)
}

/// The SDK form of options whose strings all fit hands the SDK each option
/// under its own field: every string field reads back as the option of the
/// same name, each optional string is passed exactly when it is given, the
/// server flag is 1 exactly for a server, and the settings the wrapper does
/// not expose are left at the SDK's defaults.
pub proof fn law_platform_options_reach_sdk(opts: PlatformOptions, raw: RawPlatformOptions)
    requires
        opts.all_fit(),
        opts.is_raw_form(raw),
    ensures
        valid_utf8(until_nul(raw.product_id@)) && read_back(raw.product_id@) == opts.product_id@,
        valid_utf8(until_nul(raw.sandbox_id@)) && read_back(raw.sandbox_id@) == opts.sandbox_id@,
        valid_utf8(until_nul(raw.deployment_id@)) && read_back(raw.deployment_id@) == opts.deployment_id@,
        valid_utf8(until_nul(raw.client_id@)) && read_back(raw.client_id@) == opts.client_id@,
        valid_utf8(until_nul(raw.client_secret@)) && read_back(raw.client_secret@) == opts.client_secret@,
        optional_reads_back(raw.encryption_key, opts.encryption_key),
        optional_reads_back(raw.override_country_code, opts.override_country_code),
        optional_reads_back(raw.override_locale_code, opts.override_locale_code),
        (raw.is_server == 1) == opts.is_server,
        raw.flags == 0,
        raw.cache_directory is None,
        raw.tick_budget_in_milliseconds == 0,
        raw.rtc_options == 0,
        raw.integrated_platform_options_container == 0,
        raw.system_specific_options == 0,
        raw.task_network_timeout_seconds == 0,
{
    law_c_text_round_trip(opts.product_id@);
    law_c_text_round_trip(opts.sandbox_id@);
    law_c_text_round_trip(opts.deployment_id@);
    law_c_text_round_trip(opts.client_id@);
    law_c_text_round_trip(opts.client_secret@);
    if let Some(k) = opts.encryption_key {
        law_c_text_round_trip(k@);
    }
    if let Some(k) = opts.override_country_code {
        law_c_text_round_trip(k@);
    }
    if let Some(k) = opts.override_locale_code {
        law_c_text_round_trip(k@);
    }
}

/// When options cannot be handed to the SDK, the error names a string that
/// holds a NUL, and every field before it in field order holds none: the
/// product id's NUL is reported first, the locale code's last.
pub proof fn law_platform_first_nul(opts: PlatformOptions, e: Error)
    requires
        !opts.all_fit(),
        opts.is_first_nul_error(e),
    ensures
        e matches Error::Nul(n) && has_nul(n.bytes@),
        has_nul(utf8_of(opts.product_id)) ==> (e matches Error::Nul(n) && n.bytes@ == utf8_of(opts.product_id)),
        !has_nul(utf8_of(opts.product_id)) && has_nul(utf8_of(opts.sandbox_id)) ==> (e matches Error::Nul(n)
            && n.bytes@ == utf8_of(opts.sandbox_id)),
        !has_nul(utf8_of(opts.product_id)) && !has_nul(utf8_of(opts.sandbox_id)) && has_nul(
            utf8_of(opts.deployment_id),
        ) ==> (e matches Error::Nul(n) && n.bytes@ == utf8_of(opts.deployment_id)),
        !has_nul(utf8_of(opts.product_id)) && !has_nul(utf8_of(opts.sandbox_id)) && !has_nul(
            utf8_of(opts.deployment_id),
        ) && has_nul(utf8_of(opts.client_id)) ==> (e matches Error::Nul(n) && n.bytes@ == utf8_of(opts.client_id)),
{
    if let Error::Nul(n) = e {
        assert(n.bytes@[n.position as int] == 0);
    }
}

/// Borrows the text of an optional string.
pub fn as_opt_str(s: &Option<String>) -> (r: Option<&str>)
    ensures
        s is None ==> r is None,
        s matches Some(t) ==> (r matches Some(u) && u@ == t@),
{
    match s {
        None => None,
        Some(t) => Some(t.as_str()),
    }
}

} // verus!
