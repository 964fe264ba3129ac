//! Synchronization settings: what they are, which of them are persisted,
//! and when they select the embedded-replica mode.

use vstd::prelude::*;

verus! {

/// Name of the settings file inside the data directory.
pub const SYNC_CONFIG_FILE: &'static str = "sync-config.json";

/// Nanoseconds in a second.
pub const NANOS_PER_SEC: u32 = 1_000_000_000;

/// A span of time as whole seconds and a sub-second part in nanoseconds.
/// The sub-second part of a well-formed span is less than a second.
#[derive(Debug, Clone, Copy, PartialEq, Eq)]
pub struct SyncInterval {
    pub secs: u64,
    pub nanos: u32,
}

impl SyncInterval {
    /// Whether the sub-second part is less than a second.
    pub open spec fn is_valid(self) -> bool {
        self.nanos < NANOS_PER_SEC
    }

    /// The span of `secs` seconds and `nanos` nanoseconds, where `nanos` is
    /// less than a second; `None` otherwise.
    pub fn new(secs: u64, nanos: u32) -> (interval: Option<SyncInterval>)
        ensures
            interval == (if nanos < NANOS_PER_SEC {
                Some(SyncInterval { secs, nanos })
            } else {
                None
            }),
            interval matches Some(i) ==> i.is_valid(),
    {
        if nanos < NANOS_PER_SEC {
            Some(SyncInterval { secs, nanos })
        } else {
            None
        }
    }

    /// Tells whether the sub-second part is less than a second.
    pub fn check(&self) -> (valid: bool)
        ensures
            valid == self.is_valid(),
    {
        self.nanos < NANOS_PER_SEC
    }
}

/// The synchronization settings of a running process.
#[derive(Debug, PartialEq)]
pub struct DbConfig {
    pub sync_url: Option<String>,
    pub auth_token: Option<String>,
    /// Process-local: never written to the settings file.
    pub sync_interval: SyncInterval,
    pub enable_sync: bool,
}

/// Mathematical model of a [`DbConfig`].
pub struct DbConfigModel {
    pub sync_url: Option<Seq<char>>,
    pub auth_token: Option<Seq<char>>,
    pub sync_interval: SyncInterval,
    pub enable_sync: bool,
}

/// The part of the settings that the settings file holds.
#[derive(Debug, PartialEq)]
pub struct StoredConfig {
    pub sync_url: Option<String>,
    pub auth_token: Option<String>,
    pub enable_sync: bool,
}

/// Mathematical model of a [`StoredConfig`].
pub struct StoredConfigModel {
    pub sync_url: Option<Seq<char>>,
    pub auth_token: Option<Seq<char>>,
    pub enable_sync: bool,
}

/// The text that an optional string holds.
pub open spec fn text_of(s: Option<String>) -> Option<Seq<char>> {
    match s {
        Some(t) => Some(t@),
        None => None,
    }
}

impl View for DbConfig {
    type V = DbConfigModel;

    open spec fn view(&self) -> DbConfigModel {
        DbConfigModel {
            sync_url: text_of(self.sync_url),
            auth_token: text_of(self.auth_token),
            sync_interval: self.sync_interval,
            enable_sync: self.enable_sync,
        }
    }
}

impl View for StoredConfig {
    type V = StoredConfigModel;

    open spec fn view(&self) -> StoredConfigModel {
        StoredConfigModel {
            sync_url: text_of(self.sync_url),
            auth_token: text_of(self.auth_token),
            enable_sync: self.enable_sync,
        }
    }
}

/// The settings of a fresh installation: synchronization enabled but no
/// credentials, so the store is local only; one minute between
/// synchronizations.
pub open spec fn default_config() -> DbConfigModel {
    DbConfigModel {
        sync_url: None,
        auth_token: None,
        sync_interval: SyncInterval { secs: 60, nanos: 0 },
        enable_sync: true,
    }
}

/// The persisted part of the settings.
pub open spec fn persisted_part(c: DbConfigModel) -> StoredConfigModel {
    StoredConfigModel {
        sync_url: c.sync_url,
        auth_token: c.auth_token,
        enable_sync: c.enable_sync,
    }
}

/// The settings that a settings file gives: the interval is not in the
/// file and starts at zero.
pub open spec fn restored(s: StoredConfigModel) -> DbConfigModel {
    DbConfigModel {
        sync_url: s.sync_url,
        auth_token: s.auth_token,
        sync_interval: SyncInterval { secs: 0, nanos: 0 },
        enable_sync: s.enable_sync,
    }
}

/// The settings a process starts with, given what the settings file
/// yielded: nothing where it was missing, unreadable or malformed.
pub open spec fn loaded(stored: Option<StoredConfigModel>) -> DbConfigModel {
    match stored {
        Some(s) => restored(s),
        None => default_config(),
    }
}

/// Embedded-replica mode is asked for only when synchronization is enabled
/// and both the remote address and the token are present.
pub open spec fn replica_wanted(c: DbConfigModel) -> bool {
    c.enable_sync && c.sync_url is Some && c.auth_token is Some
}

/// The settings after a reconfiguration request: the three requested
/// values, and the interval as it was.
pub open spec fn reconfigured(
    current: DbConfigModel,
    sync_url: Option<Seq<char>>,
    auth_token: Option<Seq<char>>,
    enable_sync: bool,
) -> DbConfigModel {
    DbConfigModel { sync_url, auth_token, sync_interval: current.sync_interval, enable_sync }
}

fn clone_text(s: &Option<String>) -> (c: Option<String>)
    ensures
        text_of(c) == text_of(*s),
{
    match s {
        Some(t) => Some(t.clone()),
        None => None,
    }
}

impl Default for DbConfig {
    fn default() -> (c: Self)
        ensures
            c@ == default_config(),
            c@.sync_interval.is_valid(),
    {
        DbConfig {
            sync_url: None,
            auth_token: None,
            sync_interval: SyncInterval { secs: 60, nanos: 0 },
            enable_sync: true,
        }
    }
}

impl Clone for DbConfig {
    fn clone(&self) -> (c: Self)
        ensures
            c@ == self@,
    {
        DbConfig {
            sync_url: clone_text(&self.sync_url),
            auth_token: clone_text(&self.auth_token),
            sync_interval: self.sync_interval,
            enable_sync: self.enable_sync,
        }
    }
}

impl DbConfig {
    /// Whether these settings ask for the embedded-replica mode.
    pub fn wants_replica(&self) -> (wanted: bool)
        ensures
            wanted == replica_wanted(self@),
    {
        self.enable_sync && self.sync_url.is_some() && self.auth_token.is_some()
    }

    /// The part of the settings to write to the settings file.
    pub fn persisted(&self) -> (s: StoredConfig)
        ensures
            s@ == persisted_part(self@),
    {
        StoredConfig {
            sync_url: clone_text(&self.sync_url),
            auth_token: clone_text(&self.auth_token),
            enable_sync: self.enable_sync,
        }
    }

    /// The settings that the content of a settings file gives.
    pub fn from_stored(stored: StoredConfig) -> (c: DbConfig)
        ensures
            c@ == restored(stored@),
            c@.sync_interval.is_valid(),
    {
        DbConfig {
            sync_url: stored.sync_url,
            auth_token: stored.auth_token,
            sync_interval: SyncInterval { secs: 0, nanos: 0 },
            enable_sync: stored.enable_sync,
        }
    }

    /// The settings that a reconfiguration request asks for: the requested
    /// address, token and flag, with the interval kept.
    pub fn with_request(
        &self,
        sync_url: Option<String>,
        auth_token: Option<String>,
        enable_sync: bool,
    ) -> (c: DbConfig)
        ensures
            c@ == reconfigured(self@, text_of(sync_url), text_of(auth_token), enable_sync),
    {
        DbConfig { sync_url, auth_token, sync_interval: self.sync_interval, enable_sync }
    }
}

/// The settings to start with. `stored` is what the settings file yielded,
/// or `None` where the file was missing, unreadable or malformed: then the
/// defaults apply. Never fails.
pub fn load_config(stored: Option<StoredConfig>) -> (c: DbConfig)
    ensures
        c@ == loaded(
            match stored {
                Some(s) => Some(s@),
                None => None,
            },
        ),
        c@.sync_interval.is_valid(),
{
    match stored {
        Some(s) => DbConfig::from_stored(s),
        None => DbConfig::default(),
    }
}

/// Whatever the settings file yields, the interval of the settings a
/// process starts with is well formed; and a reconfiguration keeps a
/// well-formed interval well formed.
pub proof fn lemma_interval_stays_valid(
    stored: Option<StoredConfigModel>,
    current: DbConfigModel,
    sync_url: Option<Seq<char>>,
    auth_token: Option<Seq<char>>,
    enable_sync: bool,
)
    ensures
        loaded(stored).sync_interval.is_valid(),
        current.sync_interval.is_valid() ==> reconfigured(
            current,
            sync_url,
            auth_token,
            enable_sync,
        ).sync_interval.is_valid(),
{
}

/// Without a usable settings file the store is local only.
pub proof fn lemma_defaults_are_local_only()
    ensures
        !replica_wanted(loaded(None)),
        loaded(None) == default_config(),
{
}

/// Saving settings and loading them again gives the same address, token
/// and flag.
pub proof fn lemma_saved_settings_load_back(c: DbConfigModel)
    ensures
        persisted_part(loaded(Some(persisted_part(c)))) == persisted_part(c),
        replica_wanted(loaded(Some(persisted_part(c)))) == replica_wanted(c),
{
}

/// With synchronization switched off, or with the address or the token
/// missing, the settings never ask for a replica.
pub proof fn lemma_credentials_are_all_or_nothing(c: DbConfigModel)
    ensures
        !c.enable_sync ==> !replica_wanted(c),
        (c.sync_url is None || c.auth_token is None) ==> !replica_wanted(c),
{
}

} // verus!
