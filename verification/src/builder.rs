//! Connection builder: which kind of database handle to open, and the one
//! repair that turns a local file into an embedded replica.
//!
//! Opening a database and renaming files is the caller's work. The builder
//! decides: it names the next action, the caller carries it out and reports
//! what happened, and the builder names the action after that.

use crate::config::{replica_wanted, DbConfig, DbConfigModel};
use crate::text::{contains_bytes, contains_subslice};
use vstd::prelude::*;
use vstd::utf8::encode_utf8;

verus! {

/// Name of the database file inside the data directory.
pub const DB_FILE: &'static str = "paper-trail.db";

/// Name under which an incompatible database file is set aside.
pub const DB_BACKUP_FILE: &'static str = "paper-trail.db.local-backup";

/// Name of the shared-memory side file of the database file.
pub const DB_SHM_FILE: &'static str = "paper-trail.db-shm";

/// Name of the write-ahead side file of the database file.
pub const DB_WAL_FILE: &'static str = "paper-trail.db-wal";

/// The words by which the engine reports a local file that lacks what a
/// replica needs.
pub const INCOMPATIBLE_SIGNATURE: &'static str = "wal_index";

/// The two kinds of database handle.
#[derive(Debug, Clone, Copy, PartialEq, Eq)]
pub enum Flavor {
    /// A plain local file.
    Local,
    /// A local file kept in step with a remote store.
    Replica,
}

/// Where a build stands.
#[derive(Debug, Clone, Copy, PartialEq, Eq)]
pub enum BuildPhase {
    /// Waiting for the local file to be opened.
    OpeningLocal,
    /// Waiting for the first attempt to open the replica.
    OpeningReplica,
    /// Waiting for the database file to be renamed to the backup name.
    MovingAside,
    /// Waiting for the stale side files to be removed.
    ClearingSideFiles,
    /// Waiting for the second and last attempt to open the replica.
    ReopeningReplica,
    /// The build has ended.
    Finished,
}

/// Why a build failed.
#[derive(Debug, Clone, Copy, PartialEq, Eq)]
pub enum BuildError {
    /// The engine could not open the database: its own error is the result.
    Engine,
    /// The database file could not be renamed; `code` is the system's error
    /// number, or 1 where it gave none.
    MoveAside { code: i32 },
    /// An event was reported that the phase does not wait for.
    OutOfOrder,
}

/// What the caller is to do next.
#[derive(Debug, Clone, Copy, PartialEq, Eq)]
pub enum BuildAction {
    /// Open or create the database file as a local database.
    OpenLocal,
    /// Open the database file as a replica, with the address and the token
    /// of the settings.
    OpenReplica,
    /// Rename the database file to the backup name.
    MoveAside,
    /// Remove the two side files; a failure to do so is ignored.
    ClearSideFiles,
    /// The handle that was opened last is the result.
    Done(Flavor),
    /// The build failed.
    Fail(BuildError),
}

/// What the caller reports.
#[derive(Debug, PartialEq)]
pub enum BuildEvent {
    /// The database was opened.
    Opened,
    /// The engine refused to open the database, with this message.
    OpenFailed { message: String },
    /// The database file now bears the backup name.
    MovedAside,
    /// The database file could not be renamed.
    MoveFailed { os_code: Option<i32> },
    /// The side files are gone, or could not be removed.
    SideFilesCleared,
}

/// Mathematical model of a [`BuildEvent`].
pub enum BuildEventModel {
    Opened,
    OpenFailed { message: Seq<char> },
    MovedAside,
    MoveFailed { os_code: Option<i32> },
    SideFilesCleared,
}

impl View for BuildEvent {
    type V = BuildEventModel;

    open spec fn view(&self) -> BuildEventModel {
        match self {
            BuildEvent::Opened => BuildEventModel::Opened,
            BuildEvent::OpenFailed { message } => BuildEventModel::OpenFailed { message: message@ },
            BuildEvent::MovedAside => BuildEventModel::MovedAside,
            BuildEvent::MoveFailed { os_code } => BuildEventModel::MoveFailed { os_code: *os_code },
            BuildEvent::SideFilesCleared => BuildEventModel::SideFilesCleared,
        }
    }
}

/// An engine message tells of an incompatible local file when the
/// signature occurs in it.
pub open spec fn signals_incompatible_file(message: Seq<char>) -> bool {
    contains_bytes(encode_utf8(message), encode_utf8(INCOMPATIBLE_SIGNATURE@))
}

/// How a build begins: with the replica where the settings ask for it, with
/// the local file otherwise.
pub open spec fn first_build_step(config: DbConfigModel) -> (BuildPhase, BuildAction) {
    if replica_wanted(config) {
        (BuildPhase::OpeningReplica, BuildAction::OpenReplica)
    } else {
        (BuildPhase::OpeningLocal, BuildAction::OpenLocal)
    }
}

/// How a build goes on after an event.
pub open spec fn next_build_step(phase: BuildPhase, event: BuildEventModel) -> (
    BuildPhase,
    BuildAction,
) {
    match (phase, event) {
        (BuildPhase::OpeningLocal, BuildEventModel::Opened) => (
            BuildPhase::Finished,
            BuildAction::Done(Flavor::Local),
        ),
        (BuildPhase::OpeningLocal, BuildEventModel::OpenFailed { .. }) => (
            BuildPhase::Finished,
            BuildAction::Fail(BuildError::Engine),
        ),
        (BuildPhase::OpeningReplica, BuildEventModel::Opened) => (
            BuildPhase::Finished,
            BuildAction::Done(Flavor::Replica),
        ),
        (BuildPhase::OpeningReplica, BuildEventModel::OpenFailed { message }) => {
            if signals_incompatible_file(message) {
                (BuildPhase::MovingAside, BuildAction::MoveAside)
            } else {
                (BuildPhase::Finished, BuildAction::Fail(BuildError::Engine))
            }
        },
        (BuildPhase::MovingAside, BuildEventModel::MovedAside) => (
            BuildPhase::ClearingSideFiles,
            BuildAction::ClearSideFiles,
        ),
        (BuildPhase::MovingAside, BuildEventModel::MoveFailed { os_code }) => (
            BuildPhase::Finished,
            BuildAction::Fail(
                BuildError::MoveAside {
                    code: match os_code {
                        Some(code) => code,
                        None => 1,
                    },
                },
            ),
        ),
        (BuildPhase::ClearingSideFiles, BuildEventModel::SideFilesCleared) => (
            BuildPhase::ReopeningReplica,
            BuildAction::OpenReplica,
        ),
        (BuildPhase::ReopeningReplica, BuildEventModel::Opened) => (
            BuildPhase::Finished,
            BuildAction::Done(Flavor::Replica),
        ),
        (BuildPhase::ReopeningReplica, BuildEventModel::OpenFailed { .. }) => (
            BuildPhase::Finished,
            BuildAction::Fail(BuildError::Engine),
        ),
        _ => (BuildPhase::Finished, BuildAction::Fail(BuildError::OutOfOrder)),
    }
}

/// The actions that a build names, one for each of `events`, from `phase`
/// on.
pub open spec fn build_actions(phase: BuildPhase, events: Seq<BuildEventModel>) -> Seq<BuildAction>
    decreases events.len(),
{
    if events.len() == 0 {
        seq![]
    } else {
        let (next, action) = next_build_step(phase, events[0]);
        seq![action] + build_actions(next, events.drop_first())
    }
}

/// How often `action` stands in `actions`.
pub open spec fn occurrences(actions: Seq<BuildAction>, action: BuildAction) -> nat
    decreases actions.len(),
{
    if actions.len() == 0 {
        0
    } else {
        let rest = occurrences(actions.drop_first(), action);
        if actions[0] == action {
            rest + 1
        } else {
            rest
        }
    }
}

/// Tells whether an engine message reports an incompatible local file.
pub fn is_incompatible_file(message: &str) -> (incompatible: bool)
    ensures
        incompatible == signals_incompatible_file(message@),
{
    contains_subslice(message.as_bytes(), INCOMPATIBLE_SIGNATURE.as_bytes())
}

/// Begins a build: names the first action and the phase that waits for its
/// outcome.
pub fn build_database(config: &DbConfig) -> (step: (BuildPhase, BuildAction))
    ensures
        step == first_build_step(config@),
{
    if config.wants_replica() {
        (BuildPhase::OpeningReplica, BuildAction::OpenReplica)
    } else {
        (BuildPhase::OpeningLocal, BuildAction::OpenLocal)
    }
}

/// Continues a build after `event`: names the next action and phase. A
/// failed first attempt at a replica is repaired once, and only if the
/// message bears the signature; every other failure ends the build.
pub fn continue_build(phase: BuildPhase, event: BuildEvent) -> (step: (BuildPhase, BuildAction))
    ensures
        step == next_build_step(phase, event@),
{
    match phase {
        BuildPhase::OpeningLocal => match event {
            BuildEvent::Opened => (BuildPhase::Finished, BuildAction::Done(Flavor::Local)),
            BuildEvent::OpenFailed { message: _ } => (
                BuildPhase::Finished,
                BuildAction::Fail(BuildError::Engine),
            ),
            _ => (BuildPhase::Finished, BuildAction::Fail(BuildError::OutOfOrder)),
        },
        BuildPhase::OpeningReplica => match event {
            BuildEvent::Opened => (BuildPhase::Finished, BuildAction::Done(Flavor::Replica)),
            BuildEvent::OpenFailed { message } => {
                if is_incompatible_file(message.as_str()) {
                    (BuildPhase::MovingAside, BuildAction::MoveAside)
                } else {
                    (BuildPhase::Finished, BuildAction::Fail(BuildError::Engine))
                }
            },
            _ => (BuildPhase::Finished, BuildAction::Fail(BuildError::OutOfOrder)),
        },
        BuildPhase::MovingAside => match event {
            BuildEvent::MovedAside => (BuildPhase::ClearingSideFiles, BuildAction::ClearSideFiles),
            BuildEvent::MoveFailed { os_code } => {
                let code: i32 = match os_code {
                    Some(code) => code,
                    None => 1,
                };
                (BuildPhase::Finished, BuildAction::Fail(BuildError::MoveAside { code }))
            },
            _ => (BuildPhase::Finished, BuildAction::Fail(BuildError::OutOfOrder)),
        },
        BuildPhase::ClearingSideFiles => match event {
            BuildEvent::SideFilesCleared => (
                BuildPhase::ReopeningReplica,
                BuildAction::OpenReplica,
            ),
            _ => (BuildPhase::Finished, BuildAction::Fail(BuildError::OutOfOrder)),
        },
        BuildPhase::ReopeningReplica => match event {
            BuildEvent::Opened => (BuildPhase::Finished, BuildAction::Done(Flavor::Replica)),
            BuildEvent::OpenFailed { message: _ } => (
                BuildPhase::Finished,
                BuildAction::Fail(BuildError::Engine),
            ),
            _ => (BuildPhase::Finished, BuildAction::Fail(BuildError::OutOfOrder)),
        },
        BuildPhase::Finished => (BuildPhase::Finished, BuildAction::Fail(BuildError::OutOfOrder)),
    }
}

/// With synchronization switched off a build opens the local file and can
/// only end with a local handle, whatever address and token are set.
pub proof fn lemma_sync_off_builds_local(config: DbConfigModel, events: Seq<BuildEventModel>)
    requires
        !config.enable_sync,
    ensures
        first_build_step(config) == (BuildPhase::OpeningLocal, BuildAction::OpenLocal),
        occurrences(build_actions(BuildPhase::OpeningLocal, events), BuildAction::OpenReplica)
            == 0,
        occurrences(
            build_actions(BuildPhase::OpeningLocal, events),
            BuildAction::Done(Flavor::Replica),
        ) == 0,
{
    lemma_local_build_stays_local(events);
}

/// With the address or the token missing a build opens the local file,
/// though synchronization is enabled.
pub proof fn lemma_partial_credentials_build_local(
    config: DbConfigModel,
    events: Seq<BuildEventModel>,
)
    requires
        config.sync_url is None || config.auth_token is None,
    ensures
        first_build_step(config) == (BuildPhase::OpeningLocal, BuildAction::OpenLocal),
        occurrences(build_actions(BuildPhase::OpeningLocal, events), BuildAction::OpenReplica)
            == 0,
        occurrences(
            build_actions(BuildPhase::OpeningLocal, events),
            BuildAction::Done(Flavor::Replica),
        ) == 0,
{
    lemma_local_build_stays_local(events);
}

/// A build that began with the local file never opens a replica, never
/// renames the database file and never ends with a replica handle.
pub proof fn lemma_local_build_stays_local(events: Seq<BuildEventModel>)
    ensures
        occurrences(build_actions(BuildPhase::OpeningLocal, events), BuildAction::OpenReplica)
            == 0,
        occurrences(build_actions(BuildPhase::OpeningLocal, events), BuildAction::MoveAside) == 0,
        occurrences(
            build_actions(BuildPhase::OpeningLocal, events),
            BuildAction::Done(Flavor::Replica),
        ) == 0,
{
    if events.len() > 0 {
        let actions = build_actions(BuildPhase::OpeningLocal, events);
        let rest = build_actions(BuildPhase::Finished, events.drop_first());
        assert(actions.drop_first() =~= rest);
        lemma_finished_build_only_refuses(events.drop_first(), BuildAction::OpenReplica);
        lemma_finished_build_only_refuses(events.drop_first(), BuildAction::MoveAside);
        lemma_finished_build_only_refuses(
            events.drop_first(),
            BuildAction::Done(Flavor::Replica),
        );
    }
}

/// Once a build has ended, every further event is refused as out of order.
pub proof fn lemma_finished_build_only_refuses(events: Seq<BuildEventModel>, action: BuildAction)
    requires
        action != BuildAction::Fail(BuildError::OutOfOrder),
    ensures
        occurrences(build_actions(BuildPhase::Finished, events), action) == 0,
    decreases events.len(),
{
    if events.len() > 0 {
        let actions = build_actions(BuildPhase::Finished, events);
        assert(actions.drop_first() =~= build_actions(BuildPhase::Finished, events.drop_first()));
        lemma_finished_build_only_refuses(events.drop_first(), action);
    }
}

/// The repair follows a fixed course. Only a failed first attempt whose
/// message bears the signature starts it; the file is renamed, the side
/// files are removed, and the replica is opened a second time. The outcome
/// of that second attempt ends the build either way.
pub proof fn lemma_repair_course(message: Seq<char>, outcome: BuildEventModel)
    ensures
        next_build_step(BuildPhase::OpeningReplica, BuildEventModel::OpenFailed { message }) == (
            if signals_incompatible_file(message) {
                (BuildPhase::MovingAside, BuildAction::MoveAside)
            } else {
                (BuildPhase::Finished, BuildAction::Fail(BuildError::Engine))
            }
        ),
        next_build_step(BuildPhase::MovingAside, BuildEventModel::MovedAside) == (
            BuildPhase::ClearingSideFiles,
            BuildAction::ClearSideFiles,
        ),
        next_build_step(BuildPhase::ClearingSideFiles, BuildEventModel::SideFilesCleared) == (
            BuildPhase::ReopeningReplica,
            BuildAction::OpenReplica,
        ),
        next_build_step(BuildPhase::ReopeningReplica, outcome).0 == BuildPhase::Finished,
        next_build_step(BuildPhase::ReopeningReplica, BuildEventModel::OpenFailed { message }).1
            == BuildAction::Fail(BuildError::Engine),
{
}

/// Whatever is reported, in whatever order, a build renames the database
/// file at most once, removes the side files at most once and retries the
/// replica at most once; and each of the three only while the phase that
/// leads to it still lies ahead.
pub proof fn lemma_repair_at_most_once(phase: BuildPhase, events: Seq<BuildEventModel>)
    ensures
        occurrences(build_actions(phase, events), BuildAction::MoveAside) <= (if phase
            == BuildPhase::OpeningReplica {
            1nat
        } else {
            0nat
        }),
        occurrences(build_actions(phase, events), BuildAction::ClearSideFiles) <= (if phase
            == BuildPhase::OpeningReplica || phase == BuildPhase::MovingAside {
            1nat
        } else {
            0nat
        }),
        occurrences(build_actions(phase, events), BuildAction::OpenReplica) <= (if phase
            == BuildPhase::OpeningReplica || phase == BuildPhase::MovingAside || phase
            == BuildPhase::ClearingSideFiles {
            1nat
        } else {
            0nat
        }),
    decreases events.len(),
{
    if events.len() > 0 {
        let (next, action) = next_build_step(phase, events[0]);
        let actions = build_actions(phase, events);
        assert(actions.drop_first() =~= build_actions(next, events.drop_first()));
        lemma_repair_at_most_once(next, events.drop_first());
    }
}

} // verus!
