//! Lobby creation, joining and search requests, and the fixed buffers of lobby queries.
use vstd::prelude::*;
use vstd::utf8::*;

use crate::cstr::{c_string, has_nul, is_nul_error_of, law_c_text_round_trip, terminated, until_nul};
use crate::error::Error;
use crate::ids::ProductUserId;
use crate::kinds::{eos_bool, eos_bool_spec, EOS_FALSE};
use crate::owned::OwnedObject;

verus! {

/// `EOS_LPL_PUBLICADVERTISED`: anyone can find and join the lobby.
pub const LOBBY_PERMISSION_PUBLIC_ADVERTISED: i32 = 0;
/// `EOS_LPL_JOINVIAPRESENCE`: joinable through presence or invites.
pub const LOBBY_PERMISSION_JOIN_VIA_PRESENCE: i32 = 1;
/// `EOS_LPL_INVITEONLY`: joinable by invite only.
pub const LOBBY_PERMISSION_INVITE_ONLY: i32 = 2;

/// `EOS_LRRJAT_AutomaticJoin`: members join the lobby's RTC room on their own.
pub const RTC_ROOM_JOIN_ACTION_AUTOMATIC_JOIN: i32 = 0;
/// `EOS_LRRJAT_ManualJoin`: members join the lobby's RTC room when asked to.
pub const RTC_ROOM_JOIN_ACTION_MANUAL_JOIN: i32 = 1;

/// `EOS_AT_BOOLEAN`.
pub const ATTRIBUTE_TYPE_BOOLEAN: i32 = 0;
/// `EOS_AT_INT64`.
pub const ATTRIBUTE_TYPE_INT64: i32 = 1;
/// `EOS_AT_DOUBLE`.
pub const ATTRIBUTE_TYPE_DOUBLE: i32 = 2;
/// `EOS_AT_STRING`.
pub const ATTRIBUTE_TYPE_STRING: i32 = 3;

/// Longest lobby invite id (`EOS_LOBBY_INVITEID_MAX_LENGTH`).
pub const LOBBY_INVITE_ID_MAX_LENGTH: usize = 64;
/// Size of the buffer that receives a lobby invite id, terminating NUL included.
pub const LOBBY_INVITE_ID_BUFFER_LEN: usize = 65;
/// Size of the buffer that receives an RTC room name; the SDK publishes no
/// limit for it and reports `EOS_LimitExceeded` when it does not fit.
pub const RTC_ROOM_NAME_BUFFER_LEN: usize = 256;

/// Settings of a new lobby.
#[derive(Clone, Debug)]
pub struct CreateLobbyParams {
    pub max_lobby_members: u32,
    pub permission_level: i32,
    pub presence_enabled: bool,
    pub allow_invites: bool,
    pub bucket_id: String,
    pub disable_host_migration: bool,
    pub enable_rtc_room: bool,
    pub enable_join_by_id: bool,
    pub rejoin_after_kick_requires_invite: bool,
}

/// Lobby creation settings as the SDK reads them: flags as `EOS_Bool`, the
/// bucket id NUL-terminated.
pub struct CreateLobbyOptions {
    pub local_user_id: usize,
    pub max_lobby_members: u32,
    pub permission_level: i32,
    pub presence_enabled: i32,
    pub allow_invites: i32,
    pub bucket_id: Vec<u8>,
    pub disable_host_migration: i32,
    pub enable_rtc_room: i32,
    pub enable_join_by_id: i32,
    pub rejoin_after_kick_requires_invite: i32,
    /// Lobby id to create the lobby under; `None` lets the SDK choose one.
    pub lobby_id: Option<Vec<u8>>,
    /// Address of local RTC options; 0 (null) for none.
    pub local_rtc_options: usize,
    /// Platform ids allowed to join; empty for no restriction.
    pub allowed_platform_ids: Vec<u32>,
    pub crossplay_opt_out: i32,
    pub rtc_room_join_action_type: i32,
}

/// A request to join a lobby, as the SDK reads it.
pub struct JoinLobbyRequest {
    pub lobby_details_handle: usize,
    pub local_user_id: usize,
    pub presence_enabled: i32,
    /// Address of local RTC options; 0 (null) for none.
    pub local_rtc_options: usize,
    pub crossplay_opt_out: i32,
    pub rtc_room_join_action_type: i32,
}

impl JoinLobbyRequest {
    /// The request to join the lobby described by `lobby_details` (which the
    /// caller keeps owning) as `local_user`: no local RTC options, no
    /// crossplay opt-out, and automatic join of the lobby's RTC room.
    pub fn new(lobby_details: &OwnedObject, local_user: ProductUserId, presence_enabled: bool) -> (r: JoinLobbyRequest)
        ensures
            r.lobby_details_handle == lobby_details@,
            r.lobby_details_handle != 0,
            r.local_user_id == local_user@,
            r.presence_enabled == eos_bool_spec(presence_enabled),
            r.local_rtc_options == 0,
            r.crossplay_opt_out == EOS_FALSE,
            r.rtc_room_join_action_type == RTC_ROOM_JOIN_ACTION_AUTOMATIC_JOIN,
    {
        JoinLobbyRequest {
            lobby_details_handle: lobby_details.as_ptr(),
            local_user_id: local_user.raw(),
            presence_enabled: eos_bool(presence_enabled),
            local_rtc_options: 0,
            crossplay_opt_out: EOS_FALSE,
            rtc_room_join_action_type: RTC_ROOM_JOIN_ACTION_AUTOMATIC_JOIN,
        }
    }
}

/// The kind of value a lobby attribute or search parameter holds.
#[derive(Clone, Copy, Debug, PartialEq, Eq)]
pub enum AttributeKind {
    Bool,
    Int64,
    Double,
    String,
}

/// The raw `EOS_EAttributeType` code of an attribute kind.
pub open spec fn attribute_kind_raw_spec(k: AttributeKind) -> i32 {
    match k {
        AttributeKind::Bool => ATTRIBUTE_TYPE_BOOLEAN,
        AttributeKind::Int64 => ATTRIBUTE_TYPE_INT64,
        AttributeKind::Double => ATTRIBUTE_TYPE_DOUBLE,
        AttributeKind::String => ATTRIBUTE_TYPE_STRING,
    }
}

impl AttributeKind {
    /// The raw `EOS_EAttributeType` code.
    pub fn to_raw(self) -> (v: i32)
        ensures
            v == attribute_kind_raw_spec(self),
    {
        match self {
            AttributeKind::Bool => ATTRIBUTE_TYPE_BOOLEAN,
            AttributeKind::Int64 => ATTRIBUTE_TYPE_INT64,
            AttributeKind::Double => ATTRIBUTE_TYPE_DOUBLE,
            AttributeKind::String => ATTRIBUTE_TYPE_STRING,
        }
    }
}

/// A search parameter value of a kind this library encodes itself. A float
/// value is written into the SDK's value union by whoever makes the call
/// (see `SearchParameterRequest::float`).
pub enum SearchValue {
    Bool(bool),
    Int64(i64),
    String(String),
}

/// The member of the SDK's attribute value union a search parameter sets.
pub enum EncodedValue {
    /// `AsBool`, an `EOS_Bool`.
    AsBool(i32),
    /// `AsInt64`.
    AsInt64(i64),
    /// `AsUtf8`, a NUL-terminated UTF-8 string.
    AsUtf8(Vec<u8>),
    /// `AsDouble`, written by whoever makes the SDK call.
    AsDouble,
}

/// The kind of a search value.
pub open spec fn search_value_kind(v: SearchValue) -> AttributeKind {
    match v {
        SearchValue::Bool(_) => AttributeKind::Bool,
        SearchValue::Int64(_) => AttributeKind::Int64,
        SearchValue::String(_) => AttributeKind::String,
    }
}

/// `e` is the SDK encoding of the search value `v`.
pub open spec fn is_encoding_of(e: EncodedValue, v: SearchValue) -> bool {
    match v {
        SearchValue::Bool(b) => e == EncodedValue::AsBool(eos_bool_spec(b)),
        SearchValue::Int64(i) => e == EncodedValue::AsInt64(i),
        SearchValue::String(t) => e matches EncodedValue::AsUtf8(u) && u@ == terminated(encode_utf8(t@)),
    }
}

/// The search value can be handed to the SDK.
pub open spec fn search_value_fits(v: SearchValue) -> bool {
    v matches SearchValue::String(t) ==> !has_nul(encode_utf8(t@))
}

/// A lobby search parameter as the SDK reads it (`EOS_Lobby_AttributeData`
/// and the comparison).
pub struct SearchParameterRequest {
    pub key: Vec<u8>,
    pub value_type: i32,
    pub value: EncodedValue,
    pub comparison_op: i32,
}

impl SearchParameterRequest {
    /// The parameter comparing the attribute `key` with `value`: the value's
    /// type code, and the value encoded (a boolean as an `EOS_Bool`, a string
    /// NUL-terminated). Fails with `Error::Nul` for the key, then a string
    /// value, when it holds a NUL character.
    pub fn new(key: &str, value: &SearchValue, comparison_op: i32) -> (r: Result<SearchParameterRequest, Error>)
        ensures
            r is Ok <==> !has_nul(encode_utf8(key@)) && search_value_fits(*value),
            has_nul(encode_utf8(key@)) ==> (r matches Err(Error::Nul(n)) && is_nul_error_of(n, encode_utf8(key@))),
            value matches SearchValue::String(t) ==> (!has_nul(encode_utf8(key@)) && has_nul(encode_utf8(t@))
                ==> (r matches Err(Error::Nul(n)) && is_nul_error_of(n, encode_utf8(t@)))),
            r matches Ok(q) ==> {
                &&& q.key@ == terminated(encode_utf8(key@))
                &&& q.value_type == attribute_kind_raw_spec(search_value_kind(*value))
                &&& is_encoding_of(q.value, *value)
                &&& q.comparison_op == comparison_op
            },
            r matches Ok(q) ==> (value matches SearchValue::Bool(b) ==> (q.value_type == 0 && (q.value
                matches EncodedValue::AsBool(x) && (x == 1) == b && (x == 0 || x == 1)))),
            r matches Ok(q) ==> (value matches SearchValue::Int64(i) ==> (q.value_type == 1 && (q.value
                matches EncodedValue::AsInt64(x) && x == i))),
            r matches Ok(q) ==> (value matches SearchValue::String(t) ==> (q.value_type == 3 && (q.value
                matches EncodedValue::AsUtf8(u) && u@ == terminated(encode_utf8(t@))))),
    {
        let key = c_string(key)?;
        let (kind, encoded) = match value {
            SearchValue::Bool(b) => (AttributeKind::Bool, EncodedValue::AsBool(eos_bool(*b))),
            SearchValue::Int64(i) => (AttributeKind::Int64, EncodedValue::AsInt64(*i)),
            SearchValue::String(t) => (AttributeKind::String, EncodedValue::AsUtf8(c_string(t.as_str())?)),
        };
        Ok(SearchParameterRequest { key, value_type: kind.to_raw(), value: encoded, comparison_op })
    }

    /// The parameter comparing the attribute `key` with a float value, which
    /// whoever makes the SDK call writes into `AsDouble`. Fails with
    /// `Error::Nul` when the key holds a NUL character.
    pub fn float(key: &str, comparison_op: i32) -> (r: Result<SearchParameterRequest, Error>)
        ensures
            r is Ok <==> !has_nul(encode_utf8(key@)),
            r matches Err(e) ==> (e matches Error::Nul(n) && is_nul_error_of(n, encode_utf8(key@))),
            r matches Ok(q) ==> {
                &&& q.key@ == terminated(encode_utf8(key@))
                &&& q.value_type == ATTRIBUTE_TYPE_DOUBLE
                &&& q.value_type == 2
                &&& q.value is AsDouble
                &&& q.comparison_op == comparison_op
            },
    {
        let key = c_string(key)?;
        Ok(SearchParameterRequest {
            key,
            value_type: AttributeKind::Double.to_raw(),
            value: EncodedValue::AsDouble,
            comparison_op,
        })
    }
}

/// The SDK's attribute type codes: 0 boolean, 1 64-bit integer, 2 float, 3 string.
pub proof fn law_attribute_kind_codes()
    ensures
        attribute_kind_raw_spec(AttributeKind::Bool) == 0,
        attribute_kind_raw_spec(AttributeKind::Int64) == 1,
        attribute_kind_raw_spec(AttributeKind::Double) == 2,
        attribute_kind_raw_spec(AttributeKind::String) == 3,
{
}

/// A search parameter compares against the value it was given: a boolean is
/// passed as 1 exactly when it is true, an integer unchanged, and a string
/// as a C string that reads back as that same string; and the type code is
/// the value's own kind.
pub proof fn law_search_value_reaches_sdk(e: EncodedValue, v: SearchValue)
    requires
        search_value_fits(v),
        is_encoding_of(e, v),
    ensures
        v matches SearchValue::Bool(b) ==> (e matches EncodedValue::AsBool(x) && (x == 1) == b),
        v matches SearchValue::Int64(i) ==> (e matches EncodedValue::AsInt64(x) && x == i),
        v matches SearchValue::String(t) ==> (e matches EncodedValue::AsUtf8(u) && valid_utf8(until_nul(u@))
            && decode_utf8(until_nul(u@)) == t@),
        v matches SearchValue::Bool(_) ==> attribute_kind_raw_spec(search_value_kind(v)) == 0,
        v matches SearchValue::Int64(_) ==> attribute_kind_raw_spec(search_value_kind(v)) == 1,
        v matches SearchValue::String(_) ==> attribute_kind_raw_spec(search_value_kind(v)) == 3,
{
    if let SearchValue::String(t) = v {
        law_c_text_round_trip(t@);
    }
}

impl Default for CreateLobbyParams {
    /// Eight members, publicly advertised, presence and invites on, bucket
    /// `"default"`, every other switch off.
    fn default() -> (p: CreateLobbyParams)
        ensures
            p.max_lobby_members == 8,
            p.permission_level == LOBBY_PERMISSION_PUBLIC_ADVERTISED,
            p.presence_enabled,
            p.allow_invites,
            p.bucket_id@ == "default"@,
            !p.disable_host_migration,
            !p.enable_rtc_room,
            !p.enable_join_by_id,
            !p.rejoin_after_kick_requires_invite,
    {
        broadcast use vstd::string::group_string_axioms;
        CreateLobbyParams {
            max_lobby_members: 8,
            permission_level: LOBBY_PERMISSION_PUBLIC_ADVERTISED,
            presence_enabled: true,
            allow_invites: true,
            bucket_id: "default".to_string(),
            disable_host_migration: false,
            enable_rtc_room: false,
            enable_join_by_id: false,
            rejoin_after_kick_requires_invite: false,
        }
    }
}

impl CreateLobbyParams {
    /// `o` is the SDK form of these settings for the creating user `local_user`.
    pub open spec fn is_options_form(&self, local_user: ProductUserId, o: CreateLobbyOptions) -> bool {
        &&& o.local_user_id == local_user@
        &&& o.max_lobby_members == self.max_lobby_members
        &&& o.permission_level == self.permission_level
        &&& o.presence_enabled == eos_bool_spec(self.presence_enabled)
        &&& o.allow_invites == eos_bool_spec(self.allow_invites)
        &&& o.bucket_id@ == terminated(encode_utf8(self.bucket_id@))
        &&& o.disable_host_migration == eos_bool_spec(self.disable_host_migration)
        &&& o.enable_rtc_room == eos_bool_spec(self.enable_rtc_room)
        &&& o.enable_join_by_id == eos_bool_spec(self.enable_join_by_id)
        &&& o.rejoin_after_kick_requires_invite == eos_bool_spec(self.rejoin_after_kick_requires_invite)
        &&& o.lobby_id is None
        &&& o.local_rtc_options == 0
        &&& o.allowed_platform_ids@.len() == 0
        &&& o.crossplay_opt_out == EOS_FALSE
        &&& o.rtc_room_join_action_type == RTC_ROOM_JOIN_ACTION_AUTOMATIC_JOIN
    }

    /// Every switch of the new lobby is passed as 1 exactly when it is on, and
    /// the bucket id reads back as the one given.
    pub proof fn law_lobby_switches_reach_sdk(&self, local_user: ProductUserId, o: CreateLobbyOptions)
        requires
            !has_nul(encode_utf8(self.bucket_id@)),
            self.is_options_form(local_user, o),
        ensures
            (o.presence_enabled == 1) == self.presence_enabled,
            (o.allow_invites == 1) == self.allow_invites,
            (o.disable_host_migration == 1) == self.disable_host_migration,
            (o.enable_rtc_room == 1) == self.enable_rtc_room,
            (o.enable_join_by_id == 1) == self.enable_join_by_id,
            (o.rejoin_after_kick_requires_invite == 1) == self.rejoin_after_kick_requires_invite,
            o.local_user_id == local_user@,
            o.max_lobby_members == self.max_lobby_members,
            o.permission_level == self.permission_level,
            valid_utf8(until_nul(o.bucket_id@)) && decode_utf8(until_nul(o.bucket_id@)) == self.bucket_id@,
            o.lobby_id is None,
            o.crossplay_opt_out == 0,
            o.rtc_room_join_action_type == 0,
    {
        law_c_text_round_trip(self.bucket_id@);
    }

    /// The SDK form of these settings; fails with `Error::Nul` when the
    /// bucket id holds a NUL character.
    pub fn to_options(&self, local_user: ProductUserId) -> (r: Result<CreateLobbyOptions, Error>)
        ensures
            r is Ok <==> !has_nul(encode_utf8(self.bucket_id@)),
            r matches Ok(o) ==> self.is_options_form(local_user, o),
            r matches Ok(o) ==> {
                &&& o.local_user_id == local_user@
                &&& o.max_lobby_members == self.max_lobby_members
                &&& o.permission_level == self.permission_level
                &&& (o.presence_enabled == 1) == self.presence_enabled
                &&& (o.allow_invites == 1) == self.allow_invites
                &&& o.bucket_id@ == terminated(encode_utf8(self.bucket_id@))
                &&& (o.disable_host_migration == 1) == self.disable_host_migration
                &&& (o.enable_rtc_room == 1) == self.enable_rtc_room
                &&& (o.enable_join_by_id == 1) == self.enable_join_by_id
                &&& (o.rejoin_after_kick_requires_invite == 1) == self.rejoin_after_kick_requires_invite
                &&& o.presence_enabled == eos_bool_spec(self.presence_enabled)
                &&& o.allow_invites == eos_bool_spec(self.allow_invites)
                &&& o.disable_host_migration == eos_bool_spec(self.disable_host_migration)
                &&& o.enable_rtc_room == eos_bool_spec(self.enable_rtc_room)
                &&& o.enable_join_by_id == eos_bool_spec(self.enable_join_by_id)
                &&& o.rejoin_after_kick_requires_invite == eos_bool_spec(self.rejoin_after_kick_requires_invite)
                &&& o.lobby_id is None
                &&& o.local_rtc_options == 0
                &&& o.allowed_platform_ids@.len() == 0
                &&& o.crossplay_opt_out == 0
                &&& o.rtc_room_join_action_type == 0
            },
            r matches Err(e) ==> (e matches Error::Nul(n) && is_nul_error_of(n, encode_utf8(self.bucket_id@))),
    {
        let bucket_id = c_string(self.bucket_id.as_str())?;
        Ok(CreateLobbyOptions {
            local_user_id: local_user.raw(),
            max_lobby_members: self.max_lobby_members,
            permission_level: self.permission_level,
            presence_enabled: eos_bool(self.presence_enabled),
            allow_invites: eos_bool(self.allow_invites),
            bucket_id,
            disable_host_migration: eos_bool(self.disable_host_migration),
            enable_rtc_room: eos_bool(self.enable_rtc_room),
            enable_join_by_id: eos_bool(self.enable_join_by_id),
            rejoin_after_kick_requires_invite: eos_bool(self.rejoin_after_kick_requires_invite),
            lobby_id: None,
            local_rtc_options: 0,
            allowed_platform_ids: Vec::new(),
            crossplay_opt_out: EOS_FALSE,
            rtc_room_join_action_type: RTC_ROOM_JOIN_ACTION_AUTOMATIC_JOIN,
        })
    }
}

} // verus!
