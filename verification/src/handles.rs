//! Handles of the SDK platform and of its interfaces. A handle is the raw
//! address the SDK handed out; every value of these types holds a non-null one.
use vstd::prelude::*;

use crate::error::Error;

verus! {

/// A platform instance of the SDK.
pub struct Platform {
    handle: usize,
}

impl View for Platform {
    type V = usize;

    closed spec fn view(&self) -> usize {
        self.handle
    }
}

impl Platform {
    #[verifier::type_invariant]
    spec fn non_null(self) -> bool {
        self.handle != 0
    }

    /// The platform that platform creation handed back: `Error::Null` when
    /// the SDK returned a null handle.
    pub fn from_created(handle: usize) -> (r: Result<Platform, Error>)
        ensures
            r is Ok <==> handle != 0,
            r matches Ok(p) ==> p@ == handle,
            r matches Err(e) ==> e == Error::Null,
    {
        if handle == 0 {
            Err(Error::Null)
        } else {
            Ok(Platform { handle })
        }
    }

    /// The raw platform handle, for SDK calls this wrapper does not cover.
    pub fn raw_handle(&self) -> (h: usize)
        ensures
            h == self@,
            h != 0,
    {
        proof {
            use_type_invariant(self);
        }
        self.handle
    }
}

/// The authentication interface of a platform.
pub struct Auth {
    handle: usize,
}

impl View for Auth {
    type V = usize;

    closed spec fn view(&self) -> usize {
        self.handle
    }
}

impl Auth {
    #[verifier::type_invariant]
    spec fn non_null(self) -> bool {
        self.handle != 0
    }

    /// Wraps the interface handle the platform handed out; `None` for a null handle.
    pub fn from_raw_handle(handle: usize) -> (r: Option<Auth>)
        ensures
            r is Some <==> handle != 0,
            r matches Some(i) ==> i@ == handle,
    {
        if handle == 0 {
            None
        } else {
            Some(Auth { handle })
        }
    }

    /// The raw interface handle, for SDK calls this wrapper does not cover.
    pub fn raw_handle(&self) -> (h: usize)
        ensures
            h == self@,
            h != 0,
    {
        proof {
            use_type_invariant(self);
        }
        self.handle
    }
}

/// The connect interface of a platform.
pub struct Connect {
    handle: usize,
}

impl View for Connect {
    type V = usize;

    closed spec fn view(&self) -> usize {
        self.handle
    }
}

impl Connect {
    #[verifier::type_invariant]
    spec fn non_null(self) -> bool {
        self.handle != 0
    }

    /// Wraps the interface handle the platform handed out; `None` for a null handle.
    pub fn from_raw_handle(handle: usize) -> (r: Option<Connect>)
        ensures
            r is Some <==> handle != 0,
            r matches Some(i) ==> i@ == handle,
    {
        if handle == 0 {
            None
        } else {
            Some(Connect { handle })
        }
    }

    /// The raw interface handle, for SDK calls this wrapper does not cover.
    pub fn raw_handle(&self) -> (h: usize)
        ensures
            h == self@,
            h != 0,
    {
        proof {
            use_type_invariant(self);
        }
        self.handle
    }
}

/// The achievements interface of a platform.
pub struct Achievements {
    handle: usize,
}

impl View for Achievements {
    type V = usize;

    closed spec fn view(&self) -> usize {
        self.handle
    }
}

impl Achievements {
    #[verifier::type_invariant]
    spec fn non_null(self) -> bool {
        self.handle != 0
    }

    /// Wraps the interface handle the platform handed out; `None` for a null handle.
    pub fn from_raw_handle(handle: usize) -> (r: Option<Achievements>)
        ensures
            r is Some <==> handle != 0,
            r matches Some(i) ==> i@ == handle,
    {
        if handle == 0 {
            None
        } else {
            Some(Achievements { handle })
        }
    }

    /// The raw interface handle, for SDK calls this wrapper does not cover.
    pub fn raw_handle(&self) -> (h: usize)
        ensures
            h == self@,
            h != 0,
    {
        proof {
            use_type_invariant(self);
        }
        self.handle
    }
}

/// The anti-cheat client interface of a platform.
pub struct AntiCheatClient {
    handle: usize,
}

impl View for AntiCheatClient {
    type V = usize;

    closed spec fn view(&self) -> usize {
        self.handle
    }
}

impl AntiCheatClient {
    #[verifier::type_invariant]
    spec fn non_null(self) -> bool {
        self.handle != 0
    }

    /// Wraps the interface handle the platform handed out; `None` for a null handle.
    pub fn from_raw_handle(handle: usize) -> (r: Option<AntiCheatClient>)
        ensures
            r is Some <==> handle != 0,
            r matches Some(i) ==> i@ == handle,
    {
        if handle == 0 {
            None
        } else {
            Some(AntiCheatClient { handle })
        }
    }

    /// The raw interface handle, for SDK calls this wrapper does not cover.
    pub fn raw_handle(&self) -> (h: usize)
        ensures
            h == self@,
            h != 0,
    {
        proof {
            use_type_invariant(self);
        }
        self.handle
    }
}

/// The anti-cheat server interface of a platform.
pub struct AntiCheatServer {
    handle: usize,
}

impl View for AntiCheatServer {
    type V = usize;

    closed spec fn view(&self) -> usize {
        self.handle
    }
}

impl AntiCheatServer {
    #[verifier::type_invariant]
    spec fn non_null(self) -> bool {
        self.handle != 0
    }

    /// Wraps the interface handle the platform handed out; `None` for a null handle.
    pub fn from_raw_handle(handle: usize) -> (r: Option<AntiCheatServer>)
        ensures
            r is Some <==> handle != 0,
            r matches Some(i) ==> i@ == handle,
    {
        if handle == 0 {
            None
        } else {
            Some(AntiCheatServer { handle })
        }
    }

    /// The raw interface handle, for SDK calls this wrapper does not cover.
    pub fn raw_handle(&self) -> (h: usize)
        ensures
            h == self@,
            h != 0,
    {
        proof {
            use_type_invariant(self);
        }
        self.handle
    }
}

/// The custom invites interface of a platform.
pub struct CustomInvites {
    handle: usize,
}

impl View for CustomInvites {
    type V = usize;

    closed spec fn view(&self) -> usize {
        self.handle
    }
}

impl CustomInvites {
    #[verifier::type_invariant]
    spec fn non_null(self) -> bool {
        self.handle != 0
    }

    /// Wraps the interface handle the platform handed out; `None` for a null handle.
    pub fn from_raw_handle(handle: usize) -> (r: Option<CustomInvites>)
        ensures
            r is Some <==> handle != 0,
            r matches Some(i) ==> i@ == handle,
    {
        if handle == 0 {
            None
        } else {
            Some(CustomInvites { handle })
        }
    }

    /// The raw interface handle, for SDK calls this wrapper does not cover.
    pub fn raw_handle(&self) -> (h: usize)
        ensures
            h == self@,
            h != 0,
    {
        proof {
            use_type_invariant(self);
        }
        self.handle
    }
}

/// The e-commerce interface of a platform.
pub struct Ecom {
    handle: usize,
}

impl View for Ecom {
    type V = usize;

    closed spec fn view(&self) -> usize {
        self.handle
    }
}

impl Ecom {
    #[verifier::type_invariant]
    spec fn non_null(self) -> bool {
        self.handle != 0
    }

    /// Wraps the interface handle the platform handed out; `None` for a null handle.
    pub fn from_raw_handle(handle: usize) -> (r: Option<Ecom>)
        ensures
            r is Some <==> handle != 0,
            r matches Some(i) ==> i@ == handle,
    {
        if handle == 0 {
            None
        } else {
            Some(Ecom { handle })
        }
    }

    /// The raw interface handle, for SDK calls this wrapper does not cover.
    pub fn raw_handle(&self) -> (h: usize)
        ensures
            h == self@,
            h != 0,
    {
        proof {
            use_type_invariant(self);
        }
        self.handle
    }
}

/// The friends interface of a platform.
pub struct Friends {
    handle: usize,
}

impl View for Friends {
    type V = usize;

    closed spec fn view(&self) -> usize {
        self.handle
    }
}

impl Friends {
    #[verifier::type_invariant]
    spec fn non_null(self) -> bool {
        self.handle != 0
    }

    /// Wraps the interface handle the platform handed out; `None` for a null handle.
    pub fn from_raw_handle(handle: usize) -> (r: Option<Friends>)
        ensures
            r is Some <==> handle != 0,
            r matches Some(i) ==> i@ == handle,
    {
        if handle == 0 {
            None
        } else {
            Some(Friends { handle })
        }
    }

    /// The raw interface handle, for SDK calls this wrapper does not cover.
    pub fn raw_handle(&self) -> (h: usize)
        ensures
            h == self@,
            h != 0,
    {
        proof {
            use_type_invariant(self);
        }
        self.handle
    }
}

/// The integrated platform interface of a platform.
pub struct IntegratedPlatform {
    handle: usize,
}

impl View for IntegratedPlatform {
    type V = usize;

    closed spec fn view(&self) -> usize {
        self.handle
    }
}

impl IntegratedPlatform {
    #[verifier::type_invariant]
    spec fn non_null(self) -> bool {
        self.handle != 0
    }

    /// Wraps the interface handle the platform handed out; `None` for a null handle.
    pub fn from_raw_handle(handle: usize) -> (r: Option<IntegratedPlatform>)
        ensures
            r is Some <==> handle != 0,
            r matches Some(i) ==> i@ == handle,
    {
        if handle == 0 {
            None
        } else {
            Some(IntegratedPlatform { handle })
        }
    }

    /// The raw interface handle, for SDK calls this wrapper does not cover.
    pub fn raw_handle(&self) -> (h: usize)
        ensures
            h == self@,
            h != 0,
    {
        proof {
            use_type_invariant(self);
        }
        self.handle
    }
}

/// The KWS interface of a platform.
pub struct Kws {
    handle: usize,
}

impl View for Kws {
    type V = usize;

    closed spec fn view(&self) -> usize {
        self.handle
    }
}

impl Kws {
    #[verifier::type_invariant]
    spec fn non_null(self) -> bool {
        self.handle != 0
    }

    /// Wraps the interface handle the platform handed out; `None` for a null handle.
    pub fn from_raw_handle(handle: usize) -> (r: Option<Kws>)
        ensures
            r is Some <==> handle != 0,
            r matches Some(i) ==> i@ == handle,
    {
        if handle == 0 {
            None
        } else {
            Some(Kws { handle })
        }
    }

    /// The raw interface handle, for SDK calls this wrapper does not cover.
    pub fn raw_handle(&self) -> (h: usize)
        ensures
            h == self@,
            h != 0,
    {
        proof {
            use_type_invariant(self);
        }
        self.handle
    }
}

/// The leaderboards interface of a platform.
pub struct Leaderboards {
    handle: usize,
}

impl View for Leaderboards {
    type V = usize;

    closed spec fn view(&self) -> usize {
        self.handle
    }
}

impl Leaderboards {
    #[verifier::type_invariant]
    spec fn non_null(self) -> bool {
        self.handle != 0
    }

    /// Wraps the interface handle the platform handed out; `None` for a null handle.
    pub fn from_raw_handle(handle: usize) -> (r: Option<Leaderboards>)
        ensures
            r is Some <==> handle != 0,
            r matches Some(i) ==> i@ == handle,
    {
        if handle == 0 {
            None
        } else {
            Some(Leaderboards { handle })
        }
    }

    /// The raw interface handle, for SDK calls this wrapper does not cover.
    pub fn raw_handle(&self) -> (h: usize)
        ensures
            h == self@,
            h != 0,
    {
        proof {
            use_type_invariant(self);
        }
        self.handle
    }
}

/// The lobby interface of a platform.
pub struct Lobby {
    handle: usize,
}

impl View for Lobby {
    type V = usize;

    closed spec fn view(&self) -> usize {
        self.handle
    }
}

impl Lobby {
    #[verifier::type_invariant]
    spec fn non_null(self) -> bool {
        self.handle != 0
    }

    /// Wraps the interface handle the platform handed out; `None` for a null handle.
    pub fn from_raw_handle(handle: usize) -> (r: Option<Lobby>)
        ensures
            r is Some <==> handle != 0,
            r matches Some(i) ==> i@ == handle,
    {
        if handle == 0 {
            None
        } else {
            Some(Lobby { handle })
        }
    }

    /// The raw interface handle, for SDK calls this wrapper does not cover.
    pub fn raw_handle(&self) -> (h: usize)
        ensures
            h == self@,
            h != 0,
    {
        proof {
            use_type_invariant(self);
        }
        self.handle
    }
}

/// The metrics interface of a platform.
pub struct Metrics {
    handle: usize,
}

impl View for Metrics {
    type V = usize;

    closed spec fn view(&self) -> usize {
        self.handle
    }
}

impl Metrics {
    #[verifier::type_invariant]
    spec fn non_null(self) -> bool {
        self.handle != 0
    }

    /// Wraps the interface handle the platform handed out; `None` for a null handle.
    pub fn from_raw_handle(handle: usize) -> (r: Option<Metrics>)
        ensures
            r is Some <==> handle != 0,
            r matches Some(i) ==> i@ == handle,
    {
        if handle == 0 {
            None
        } else {
            Some(Metrics { handle })
        }
    }

    /// The raw interface handle, for SDK calls this wrapper does not cover.
    pub fn raw_handle(&self) -> (h: usize)
        ensures
            h == self@,
            h != 0,
    {
        proof {
            use_type_invariant(self);
        }
        self.handle
    }
}

/// The mods interface of a platform.
pub struct Mods {
    handle: usize,
}

impl View for Mods {
    type V = usize;

    closed spec fn view(&self) -> usize {
        self.handle
    }
}

impl Mods {
    #[verifier::type_invariant]
    spec fn non_null(self) -> bool {
        self.handle != 0
    }

    /// Wraps the interface handle the platform handed out; `None` for a null handle.
    pub fn from_raw_handle(handle: usize) -> (r: Option<Mods>)
        ensures
            r is Some <==> handle != 0,
            r matches Some(i) ==> i@ == handle,
    {
        if handle == 0 {
            None
        } else {
            Some(Mods { handle })
        }
    }

    /// The raw interface handle, for SDK calls this wrapper does not cover.
    pub fn raw_handle(&self) -> (h: usize)
        ensures
            h == self@,
            h != 0,
    {
        proof {
            use_type_invariant(self);
        }
        self.handle
    }
}

/// The peer-to-peer interface of a platform.
pub struct P2P {
    handle: usize,
}

impl View for P2P {
    type V = usize;

    closed spec fn view(&self) -> usize {
        self.handle
    }
}

impl P2P {
    #[verifier::type_invariant]
    spec fn non_null(self) -> bool {
        self.handle != 0
    }

    /// Wraps the interface handle the platform handed out; `None` for a null handle.
    pub fn from_raw_handle(handle: usize) -> (r: Option<P2P>)
        ensures
            r is Some <==> handle != 0,
            r matches Some(i) ==> i@ == handle,
    {
        if handle == 0 {
            None
        } else {
            Some(P2P { handle })
        }
    }

    /// The raw interface handle, for SDK calls this wrapper does not cover.
    pub fn raw_handle(&self) -> (h: usize)
        ensures
            h == self@,
            h != 0,
    {
        proof {
            use_type_invariant(self);
        }
        self.handle
    }
}

/// The player data storage interface of a platform.
pub struct PlayerDataStorage {
    handle: usize,
}

impl View for PlayerDataStorage {
    type V = usize;

    closed spec fn view(&self) -> usize {
        self.handle
    }
}

impl PlayerDataStorage {
    #[verifier::type_invariant]
    spec fn non_null(self) -> bool {
        self.handle != 0
    }

    /// Wraps the interface handle the platform handed out; `None` for a null handle.
    pub fn from_raw_handle(handle: usize) -> (r: Option<PlayerDataStorage>)
        ensures
            r is Some <==> handle != 0,
            r matches Some(i) ==> i@ == handle,
    {
        if handle == 0 {
            None
        } else {
            Some(PlayerDataStorage { handle })
        }
    }

    /// The raw interface handle, for SDK calls this wrapper does not cover.
    pub fn raw_handle(&self) -> (h: usize)
        ensures
            h == self@,
            h != 0,
    {
        proof {
            use_type_invariant(self);
        }
        self.handle
    }
}

/// The presence interface of a platform.
pub struct Presence {
    handle: usize,
}

impl View for Presence {
    type V = usize;

    closed spec fn view(&self) -> usize {
        self.handle
    }
}

impl Presence {
    #[verifier::type_invariant]
    spec fn non_null(self) -> bool {
        self.handle != 0
    }

    /// Wraps the interface handle the platform handed out; `None` for a null handle.
    pub fn from_raw_handle(handle: usize) -> (r: Option<Presence>)
        ensures
            r is Some <==> handle != 0,
            r matches Some(i) ==> i@ == handle,
    {
        if handle == 0 {
            None
        } else {
            Some(Presence { handle })
        }
    }

    /// The raw interface handle, for SDK calls this wrapper does not cover.
    pub fn raw_handle(&self) -> (h: usize)
        ensures
            h == self@,
            h != 0,
    {
        proof {
            use_type_invariant(self);
        }
        self.handle
    }
}

/// The progression snapshot interface of a platform.
pub struct ProgressionSnapshot {
    handle: usize,
}

impl View for ProgressionSnapshot {
    type V = usize;

    closed spec fn view(&self) -> usize {
        self.handle
    }
}

impl ProgressionSnapshot {
    #[verifier::type_invariant]
    spec fn non_null(self) -> bool {
        self.handle != 0
    }

    /// Wraps the interface handle the platform handed out; `None` for a null handle.
    pub fn from_raw_handle(handle: usize) -> (r: Option<ProgressionSnapshot>)
        ensures
            r is Some <==> handle != 0,
            r matches Some(i) ==> i@ == handle,
    {
        if handle == 0 {
            None
        } else {
            Some(ProgressionSnapshot { handle })
        }
    }

    /// The raw interface handle, for SDK calls this wrapper does not cover.
    pub fn raw_handle(&self) -> (h: usize)
        ensures
            h == self@,
            h != 0,
    {
        proof {
            use_type_invariant(self);
        }
        self.handle
    }
}

/// The reports interface of a platform.
pub struct Reports {
    handle: usize,
}

impl View for Reports {
    type V = usize;

    closed spec fn view(&self) -> usize {
        self.handle
    }
}

impl Reports {
    #[verifier::type_invariant]
    spec fn non_null(self) -> bool {
        self.handle != 0
    }

    /// Wraps the interface handle the platform handed out; `None` for a null handle.
    pub fn from_raw_handle(handle: usize) -> (r: Option<Reports>)
        ensures
            r is Some <==> handle != 0,
            r matches Some(i) ==> i@ == handle,
    {
        if handle == 0 {
            None
        } else {
            Some(Reports { handle })
        }
    }

    /// The raw interface handle, for SDK calls this wrapper does not cover.
    pub fn raw_handle(&self) -> (h: usize)
        ensures
            h == self@,
            h != 0,
    {
        proof {
            use_type_invariant(self);
        }
        self.handle
    }
}

/// The real-time communication interface of a platform.
pub struct Rtc {
    handle: usize,
}

impl View for Rtc {
    type V = usize;

    closed spec fn view(&self) -> usize {
        self.handle
    }
}

impl Rtc {
    #[verifier::type_invariant]
    spec fn non_null(self) -> bool {
        self.handle != 0
    }

    /// Wraps the interface handle the platform handed out; `None` for a null handle.
    pub fn from_raw_handle(handle: usize) -> (r: Option<Rtc>)
        ensures
            r is Some <==> handle != 0,
            r matches Some(i) ==> i@ == handle,
    {
        if handle == 0 {
            None
        } else {
            Some(Rtc { handle })
        }
    }

    /// The raw interface handle, for SDK calls this wrapper does not cover.
    pub fn raw_handle(&self) -> (h: usize)
        ensures
            h == self@,
            h != 0,
    {
        proof {
            use_type_invariant(self);
        }
        self.handle
    }
}

/// The real-time communication admin interface of a platform.
pub struct RtcAdmin {
    handle: usize,
}

impl View for RtcAdmin {
    type V = usize;

    closed spec fn view(&self) -> usize {
        self.handle
    }
}

impl RtcAdmin {
    #[verifier::type_invariant]
    spec fn non_null(self) -> bool {
        self.handle != 0
    }

    /// Wraps the interface handle the platform handed out; `None` for a null handle.
    pub fn from_raw_handle(handle: usize) -> (r: Option<RtcAdmin>)
        ensures
            r is Some <==> handle != 0,
            r matches Some(i) ==> i@ == handle,
    {
        if handle == 0 {
            None
        } else {
            Some(RtcAdmin { handle })
        }
    }

    /// The raw interface handle, for SDK calls this wrapper does not cover.
    pub fn raw_handle(&self) -> (h: usize)
        ensures
            h == self@,
            h != 0,
    {
        proof {
            use_type_invariant(self);
        }
        self.handle
    }
}

/// The sanctions interface of a platform.
pub struct Sanctions {
    handle: usize,
}

impl View for Sanctions {
    type V = usize;

    closed spec fn view(&self) -> usize {
        self.handle
    }
}

impl Sanctions {
    #[verifier::type_invariant]
    spec fn non_null(self) -> bool {
        self.handle != 0
    }

    /// Wraps the interface handle the platform handed out; `None` for a null handle.
    pub fn from_raw_handle(handle: usize) -> (r: Option<Sanctions>)
        ensures
            r is Some <==> handle != 0,
            r matches Some(i) ==> i@ == handle,
    {
        if handle == 0 {
            None
        } else {
            Some(Sanctions { handle })
        }
    }

    /// The raw interface handle, for SDK calls this wrapper does not cover.
    pub fn raw_handle(&self) -> (h: usize)
        ensures
            h == self@,
            h != 0,
    {
        proof {
            use_type_invariant(self);
        }
        self.handle
    }
}

/// The sessions interface of a platform.
pub struct Sessions {
    handle: usize,
}

impl View for Sessions {
    type V = usize;

    closed spec fn view(&self) -> usize {
        self.handle
    }
}

impl Sessions {
    #[verifier::type_invariant]
    spec fn non_null(self) -> bool {
        self.handle != 0
    }

    /// Wraps the interface handle the platform handed out; `None` for a null handle.
    pub fn from_raw_handle(handle: usize) -> (r: Option<Sessions>)
        ensures
            r is Some <==> handle != 0,
            r matches Some(i) ==> i@ == handle,
    {
        if handle == 0 {
            None
        } else {
            Some(Sessions { handle })
        }
    }

    /// The raw interface handle, for SDK calls this wrapper does not cover.
    pub fn raw_handle(&self) -> (h: usize)
        ensures
            h == self@,
            h != 0,
    {
        proof {
            use_type_invariant(self);
        }
        self.handle
    }
}

/// The stats interface of a platform.
pub struct Stats {
    handle: usize,
}

impl View for Stats {
    type V = usize;

    closed spec fn view(&self) -> usize {
        self.handle
    }
}

impl Stats {
    #[verifier::type_invariant]
    spec fn non_null(self) -> bool {
        self.handle != 0
    }

    /// Wraps the interface handle the platform handed out; `None` for a null handle.
    pub fn from_raw_handle(handle: usize) -> (r: Option<Stats>)
        ensures
            r is Some <==> handle != 0,
            r matches Some(i) ==> i@ == handle,
    {
        if handle == 0 {
            None
        } else {
            Some(Stats { handle })
        }
    }

    /// The raw interface handle, for SDK calls this wrapper does not cover.
    pub fn raw_handle(&self) -> (h: usize)
        ensures
            h == self@,
            h != 0,
    {
        proof {
            use_type_invariant(self);
        }
        self.handle
    }
}

/// The title storage interface of a platform.
pub struct TitleStorage {
    handle: usize,
}

impl View for TitleStorage {
    type V = usize;

    closed spec fn view(&self) -> usize {
        self.handle
    }
}

impl TitleStorage {
    #[verifier::type_invariant]
    spec fn non_null(self) -> bool {
        self.handle != 0
    }

    /// Wraps the interface handle the platform handed out; `None` for a null handle.
    pub fn from_raw_handle(handle: usize) -> (r: Option<TitleStorage>)
        ensures
            r is Some <==> handle != 0,
            r matches Some(i) ==> i@ == handle,
    {
        if handle == 0 {
            None
        } else {
            Some(TitleStorage { handle })
        }
    }

    /// The raw interface handle, for SDK calls this wrapper does not cover.
    pub fn raw_handle(&self) -> (h: usize)
        ensures
            h == self@,
            h != 0,
    {
        proof {
            use_type_invariant(self);
        }
        self.handle
    }
}

/// The UI interface of a platform.
pub struct Ui {
    handle: usize,
}

impl View for Ui {
    type V = usize;

    closed spec fn view(&self) -> usize {
        self.handle
    }
}

impl Ui {
    #[verifier::type_invariant]
    spec fn non_null(self) -> bool {
        self.handle != 0
    }

    /// Wraps the interface handle the platform handed out; `None` for a null handle.
    pub fn from_raw_handle(handle: usize) -> (r: Option<Ui>)
        ensures
            r is Some <==> handle != 0,
            r matches Some(i) ==> i@ == handle,
    {
        if handle == 0 {
            None
        } else {
            Some(Ui { handle })
        }
    }

    /// The raw interface handle, for SDK calls this wrapper does not cover.
    pub fn raw_handle(&self) -> (h: usize)
        ensures
            h == self@,
            h != 0,
    {
        proof {
            use_type_invariant(self);
        }
        self.handle
    }
}

/// The user info interface of a platform.
pub struct UserInfo {
    handle: usize,
}

impl View for UserInfo {
    type V = usize;

    closed spec fn view(&self) -> usize {
        self.handle
    }
}

impl UserInfo {
    #[verifier::type_invariant]
    spec fn non_null(self) -> bool {
        self.handle != 0
    }

    /// Wraps the interface handle the platform handed out; `None` for a null handle.
    pub fn from_raw_handle(handle: usize) -> (r: Option<UserInfo>)
        ensures
            r is Some <==> handle != 0,
            r matches Some(i) ==> i@ == handle,
    {
        if handle == 0 {
            None
        } else {
            Some(UserInfo { handle })
        }
    }

    /// The raw interface handle, for SDK calls this wrapper does not cover.
    pub fn raw_handle(&self) -> (h: usize)
        ensures
            h == self@,
            h != 0,
    {
        proof {
            use_type_invariant(self);
        }
        self.handle
    }
}

} // verus!
