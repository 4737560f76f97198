//! Verified core of a Rust wrapper over the Epic Online Services (EOS) SDK.
//!
//! The SDK is a C library: it takes NUL-terminated strings, fixed-size
//! buffers, integer codes and opaque handles, and reports outcomes as result
//! codes. This crate holds everything the wrapper decides on its own side of
//! that boundary, with contracts proved by Verus:
//!
//! - `cstr`, `text`: C strings out of Rust strings, and text out of C buffers;
//! - `error`: result codes and the wrapper's errors;
//! - `kinds`: the SDK's enumerations and booleans;
//! - `ids`, `handles`, `owned`: account ids, platform and interface handles,
//!   and objects the caller must release;
//! - `lifecycle`: the process-wide initialize / shutdown state;
//! - `platform`, `lobby`, `p2p`, `socket`: the option records and requests
//!   the SDK calls take, and the values built from what they hand back.
pub mod callback;
pub mod cstr;
pub mod error;
pub mod handles;
pub mod ids;
pub mod kinds;
pub mod lifecycle;
pub mod lobby;
pub mod login;
pub mod owned;
pub mod p2p;
pub mod platform;
pub mod socket;
pub mod text;

pub use error::{ok, Error, NulError};
pub use handles::{
    Achievements, AntiCheatClient, AntiCheatServer, Auth, Connect, CustomInvites, Ecom, Friends,
    IntegratedPlatform, Kws, Leaderboards, Lobby, Metrics, Mods, P2P, Platform, PlayerDataStorage,
    Presence, ProgressionSnapshot, Reports, Rtc, RtcAdmin, Sanctions, Sessions, Stats, TitleStorage, Ui,
    UserInfo,
};
pub use ids::{ContinuanceToken, EpicAccountId, ProductUserId};
pub use kinds::{LoginStatus, NatType, PacketReliability, RelayControl};
pub use lifecycle::InitializeOptions;
pub use lobby::CreateLobbyParams;
pub use p2p::{PacketQueueInfo, ReceivedPacket};
pub use platform::PlatformOptions;
