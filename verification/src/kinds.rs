//! The SDK's enumerations and their raw integer codes.
use vstd::prelude::*;

verus! {

/// `EOS_LS_NotLoggedIn`.
pub const LOGIN_STATUS_NOT_LOGGED_IN: i32 = 0;
/// `EOS_LS_UsingLocalProfile`.
pub const LOGIN_STATUS_USING_LOCAL_PROFILE: i32 = 1;
/// `EOS_LS_LoggedIn`.
pub const LOGIN_STATUS_LOGGED_IN: i32 = 2;

/// `EOS_NAT_Unknown`.
pub const NAT_TYPE_UNKNOWN: i32 = 0;
/// `EOS_NAT_Open`.
pub const NAT_TYPE_OPEN: i32 = 1;
/// `EOS_NAT_Moderate`.
pub const NAT_TYPE_MODERATE: i32 = 2;
/// `EOS_NAT_Strict`.
pub const NAT_TYPE_STRICT: i32 = 3;

/// `EOS_RC_NoRelays`.
pub const RELAY_CONTROL_NO_RELAYS: i32 = 0;
/// `EOS_RC_AllowRelays`.
pub const RELAY_CONTROL_ALLOW_RELAYS: i32 = 1;
/// `EOS_RC_ForceRelays`.
pub const RELAY_CONTROL_FORCE_RELAYS: i32 = 2;

/// `EOS_PR_UnreliableUnordered`.
pub const PACKET_RELIABILITY_UNRELIABLE_UNORDERED: i32 = 0;
/// `EOS_PR_ReliableUnordered`.
pub const PACKET_RELIABILITY_RELIABLE_UNORDERED: i32 = 1;
/// `EOS_PR_ReliableOrdered`.
pub const PACKET_RELIABILITY_RELIABLE_ORDERED: i32 = 2;

/// The SDK's boolean `true` (`EOS_TRUE`).
pub const EOS_TRUE: i32 = 1;
/// The SDK's boolean `false` (`EOS_FALSE`).
pub const EOS_FALSE: i32 = 0;

/// The SDK's encoding of a boolean.
pub open spec fn eos_bool_spec(b: bool) -> i32 {
    if b {
        EOS_TRUE
    } else {
        EOS_FALSE
    }
}

/// Encodes a boolean as the SDK's `EOS_Bool`.
pub fn eos_bool(b: bool) -> (r: i32)
    ensures
        r == eos_bool_spec(b),
{
    if b {
        EOS_TRUE
    } else {
        EOS_FALSE
    }
}

/// Login state of a local user.
#[derive(Clone, Copy, Debug, PartialEq, Eq)]
pub enum LoginStatus {
    NotLoggedIn,
    UsingLocalProfile,
    LoggedIn,
    /// A code this wrapper does not name.
    Other(i32),
}

/// The login status that the raw code `status` stands for.
pub open spec fn login_status_spec(status: i32) -> LoginStatus {
    if status == LOGIN_STATUS_NOT_LOGGED_IN {
        LoginStatus::NotLoggedIn
    } else if status == LOGIN_STATUS_USING_LOCAL_PROFILE {
        LoginStatus::UsingLocalProfile
    } else if status == LOGIN_STATUS_LOGGED_IN {
        LoginStatus::LoggedIn
    } else {
        LoginStatus::Other(status)
    }
}

impl LoginStatus {
    /// Reads a raw `EOS_ELoginStatus`; unknown codes are kept in `Other`.
    pub fn from_raw(status: i32) -> (r: LoginStatus)
        ensures
            r == login_status_spec(status),
    {
        if status == LOGIN_STATUS_NOT_LOGGED_IN {
            LoginStatus::NotLoggedIn
        } else if status == LOGIN_STATUS_USING_LOCAL_PROFILE {
            LoginStatus::UsingLocalProfile
        } else if status == LOGIN_STATUS_LOGGED_IN {
            LoginStatus::LoggedIn
        } else {
            LoginStatus::Other(status)
        }
    }
}

/// NAT type detected for the local network.
#[derive(Clone, Copy, Debug, PartialEq, Eq)]
pub enum NatType {
    Unknown,
    Open,
    Moderate,
    Strict,
    /// A code this wrapper does not name.
    Other(i32),
}

/// The NAT type that the raw code `v` stands for.
pub open spec fn nat_type_spec(v: i32) -> NatType {
    if v == NAT_TYPE_UNKNOWN {
        NatType::Unknown
    } else if v == NAT_TYPE_OPEN {
        NatType::Open
    } else if v == NAT_TYPE_MODERATE {
        NatType::Moderate
    } else if v == NAT_TYPE_STRICT {
        NatType::Strict
    } else {
        NatType::Other(v)
    }
}

impl NatType {
    /// Reads a raw `EOS_ENATType`; unknown codes are kept in `Other`.
    pub fn from_raw(v: i32) -> (r: NatType)
        ensures
            r == nat_type_spec(v),
    {
        if v == NAT_TYPE_UNKNOWN {
            NatType::Unknown
        } else if v == NAT_TYPE_OPEN {
            NatType::Open
        } else if v == NAT_TYPE_MODERATE {
            NatType::Moderate
        } else if v == NAT_TYPE_STRICT {
            NatType::Strict
        } else {
            NatType::Other(v)
        }
    }
}

/// Whether peer-to-peer traffic may go through relay servers.
#[derive(Clone, Copy, Debug, PartialEq, Eq)]
pub enum RelayControl {
    NoRelays,
    AllowRelays,
    ForceRelays,
    /// A code this wrapper does not name.
    Other(i32),
}

/// The relay control that the raw code `v` stands for.
pub open spec fn relay_control_spec(v: i32) -> RelayControl {
    if v == RELAY_CONTROL_NO_RELAYS {
        RelayControl::NoRelays
    } else if v == RELAY_CONTROL_ALLOW_RELAYS {
        RelayControl::AllowRelays
    } else if v == RELAY_CONTROL_FORCE_RELAYS {
        RelayControl::ForceRelays
    } else {
        RelayControl::Other(v)
    }
}

/// The raw code of a relay control.
pub open spec fn relay_control_raw_spec(r: RelayControl) -> i32 {
    match r {
        RelayControl::NoRelays => RELAY_CONTROL_NO_RELAYS,
        RelayControl::AllowRelays => RELAY_CONTROL_ALLOW_RELAYS,
        RelayControl::ForceRelays => RELAY_CONTROL_FORCE_RELAYS,
        RelayControl::Other(v) => v,
    }
}

/// A relay control in the form `from_raw` produces: `Other` never holds a
/// code that has a variant of its own.
pub open spec fn relay_control_is_canonical(r: RelayControl) -> bool {
    r matches RelayControl::Other(v) ==> (v != RELAY_CONTROL_NO_RELAYS && v != RELAY_CONTROL_ALLOW_RELAYS
        && v != RELAY_CONTROL_FORCE_RELAYS)
}

impl RelayControl {
    /// Reads a raw `EOS_ERelayControl`; unknown codes are kept in `Other`.
    pub fn from_raw(v: i32) -> (r: RelayControl)
        ensures
            r == relay_control_spec(v),
    {
        if v == RELAY_CONTROL_NO_RELAYS {
            RelayControl::NoRelays
        } else if v == RELAY_CONTROL_ALLOW_RELAYS {
            RelayControl::AllowRelays
        } else if v == RELAY_CONTROL_FORCE_RELAYS {
            RelayControl::ForceRelays
        } else {
            RelayControl::Other(v)
        }
    }

    /// The raw `EOS_ERelayControl` code.
    pub fn to_raw(self) -> (v: i32)
        ensures
            v == relay_control_raw_spec(self),
    {
        match self {
            RelayControl::NoRelays => RELAY_CONTROL_NO_RELAYS,
            RelayControl::AllowRelays => RELAY_CONTROL_ALLOW_RELAYS,
            RelayControl::ForceRelays => RELAY_CONTROL_FORCE_RELAYS,
            RelayControl::Other(v) => v,
        }
    }
}

/// Delivery guarantee of a peer-to-peer packet.
#[derive(Clone, Copy, Debug, PartialEq, Eq)]
pub enum PacketReliability {
    UnreliableUnordered,
    ReliableUnordered,
    ReliableOrdered,
}

/// The raw code of a packet reliability.
pub open spec fn packet_reliability_raw_spec(p: PacketReliability) -> i32 {
    match p {
        PacketReliability::UnreliableUnordered => PACKET_RELIABILITY_UNRELIABLE_UNORDERED,
        PacketReliability::ReliableUnordered => PACKET_RELIABILITY_RELIABLE_UNORDERED,
        PacketReliability::ReliableOrdered => PACKET_RELIABILITY_RELIABLE_ORDERED,
    }
}

impl PacketReliability {
    /// The raw `EOS_EPacketReliability` code.
    pub fn to_raw(self) -> (v: i32)
        ensures
            v == packet_reliability_raw_spec(self),
    {
        match self {
            PacketReliability::UnreliableUnordered => PACKET_RELIABILITY_UNRELIABLE_UNORDERED,
            PacketReliability::ReliableUnordered => PACKET_RELIABILITY_RELIABLE_UNORDERED,
            PacketReliability::ReliableOrdered => PACKET_RELIABILITY_RELIABLE_ORDERED,
        }
    }
}

/// Reading a raw relay code and writing it back gives the same code.
pub proof fn law_relay_control_raw_round_trip(v: i32)
    ensures
        relay_control_raw_spec(relay_control_spec(v)) == v,
        relay_control_is_canonical(relay_control_spec(v)),
{
}

/// Writing a relay control in the form `from_raw` produces and reading it
/// back gives the same relay control.
pub proof fn law_relay_control_value_round_trip(r: RelayControl)
    requires
        relay_control_is_canonical(r),
    ensures
        relay_control_spec(relay_control_raw_spec(r)) == r,
{
}

/// The SDK's booleans: `true` is 1 and `false` is 0.
pub proof fn law_eos_bool_codes(b: bool)
    ensures
        eos_bool_spec(true) == 1,
        eos_bool_spec(false) == 0,
        (eos_bool_spec(b) == 1) == b,
        eos_bool_spec(b) == 0 || eos_bool_spec(b) == 1,
{
}

/// Each login status code of the SDK reads as its own status:
/// 0 not logged in, 1 using a local profile, 2 logged in.
pub proof fn law_login_status_codes()
    ensures
        login_status_spec(0) == LoginStatus::NotLoggedIn,
        login_status_spec(1) == LoginStatus::UsingLocalProfile,
        login_status_spec(2) == LoginStatus::LoggedIn,
{
}

/// Each NAT type code of the SDK reads as its own type:
/// 0 unknown, 1 open, 2 moderate, 3 strict.
pub proof fn law_nat_type_codes()
    ensures
        nat_type_spec(0) == NatType::Unknown,
        nat_type_spec(1) == NatType::Open,
        nat_type_spec(2) == NatType::Moderate,
        nat_type_spec(3) == NatType::Strict,
{
}

/// Each relay control is written as its own SDK code and each code reads
/// as its own relay control: 0 no relays, 1 allow relays, 2 force relays.
pub proof fn law_relay_control_codes()
    ensures
        relay_control_raw_spec(RelayControl::NoRelays) == 0,
        relay_control_raw_spec(RelayControl::AllowRelays) == 1,
        relay_control_raw_spec(RelayControl::ForceRelays) == 2,
        relay_control_spec(0) == RelayControl::NoRelays,
        relay_control_spec(1) == RelayControl::AllowRelays,
        relay_control_spec(2) == RelayControl::ForceRelays,
{
}

/// Each packet reliability is written as its own SDK code: 0 unreliable
/// unordered, 1 reliable unordered, 2 reliable ordered.
pub proof fn law_packet_reliability_codes()
    ensures
        packet_reliability_raw_spec(PacketReliability::UnreliableUnordered) == 0,
        packet_reliability_raw_spec(PacketReliability::ReliableUnordered) == 1,
        packet_reliability_raw_spec(PacketReliability::ReliableOrdered) == 2,
{
}

/// Distinct reliabilities have distinct raw codes.
pub proof fn law_packet_reliability_raw_injective(p: PacketReliability, q: PacketReliability)
    ensures
        packet_reliability_raw_spec(p) == packet_reliability_raw_spec(q) ==> p == q,
{
}

/// A raw login status lands in `Other` exactly when it is none of the known codes.
pub proof fn law_login_status_other(status: i32)
    ensures
        login_status_spec(status) is Other <==> (status != LOGIN_STATUS_NOT_LOGGED_IN
            && status != LOGIN_STATUS_USING_LOCAL_PROFILE && status != LOGIN_STATUS_LOGGED_IN),
        login_status_spec(status) matches LoginStatus::Other(v) ==> v == status,
{
}

/// A raw NAT type lands in `Other` exactly when it is none of the known codes.
pub proof fn law_nat_type_other(v: i32)
    ensures
        nat_type_spec(v) is Other <==> (v != NAT_TYPE_UNKNOWN && v != NAT_TYPE_OPEN && v != NAT_TYPE_MODERATE
            && v != NAT_TYPE_STRICT),
        nat_type_spec(v) matches NatType::Other(w) ==> w == v,
{
}

} // verus!
