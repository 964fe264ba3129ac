//! The live database state and the order of the steps that bring a new
//! state up, at startup and on reconfiguration.
//!
//! The state owns the database handle and its single connection. What they
//! are is the caller's matter: the library carries them and never looks
//! inside. A state is replaced as a whole, and only after every step that
//! must succeed has succeeded.

use crate::config::{reconfigured, text_of, DbConfig, DbConfigModel};
use vstd::prelude::*;

verus! {

/// The live state: the database handle `db`, the one connection `conn` that
/// all statements go through, the settings in force, and the data
/// directory.
pub struct DbState<D, C, P> {
    pub db: D,
    pub conn: C,
    pub config: DbConfig,
    pub app_data_dir: P,
}

/// What a request to synchronize leads to.
#[derive(Debug, Clone, Copy, PartialEq, Eq)]
pub enum SyncAction {
    /// Run the engine's synchronization and hand its error on unchanged.
    Synchronize,
    /// Do nothing and report success.
    Nothing,
}

/// Synchronization runs exactly when the settings enable it.
pub open spec fn sync_decision(config: DbConfigModel) -> SyncAction {
    if config.enable_sync {
        SyncAction::Synchronize
    } else {
        SyncAction::Nothing
    }
}

/// Why a new state is brought up.
#[derive(Debug, Clone, Copy, PartialEq, Eq)]
pub enum Purpose {
    /// The process starts.
    Startup,
    /// New settings were requested while a state is live.
    Reconfiguration,
}

/// The step that is under way.
#[derive(Debug, Clone, Copy, PartialEq, Eq)]
pub enum Stage {
    /// Writing the requested settings to the settings file.
    Saving,
    /// Building the database handle.
    Building,
    /// Opening the connection.
    Connecting,
    /// Running the schema batch on the new connection.
    ApplyingSchema,
    /// Migrating the rows of a backup, if there is one.
    Migrating,
    /// Nothing is under way any more.
    Finished,
}

/// How a step ended.
#[derive(Debug, Clone, Copy, PartialEq, Eq)]
pub enum Outcome {
    Succeeded,
    Failed,
}

/// What the caller is to do next.
#[derive(Debug, Clone, Copy, PartialEq, Eq)]
pub enum Directive {
    /// Write the requested settings to the settings file.
    SaveConfig,
    /// Build the database handle for the settings.
    BuildDatabase,
    /// Open a connection on the new handle.
    Connect,
    /// Run the schema batch on the new connection.
    ApplySchema,
    /// Run the backup migration into the new connection.
    Migrate,
    /// Make the new handle, connection and settings the live state.
    /// `migration_failed` tells that the migration failed: the failure is
    /// to be reported, and the backup file is still in place.
    Install { migration_failed: bool },
    /// Give up with the error of the step that failed. The live state stays
    /// as it is.
    Abort(Stage),
}

/// How bringing up a state begins: a reconfiguration first persists the
/// requested settings, a startup begins with the build.
pub open spec fn first_directive(purpose: Purpose) -> (Stage, Directive) {
    match purpose {
        Purpose::Startup => (Stage::Building, Directive::BuildDatabase),
        Purpose::Reconfiguration => (Stage::Saving, Directive::SaveConfig),
    }
}

/// How bringing up a state goes on after a step ended. A failed step ends
/// it, with one exception: a failed migration is not fatal. The new state
/// is installed all the same, the failure is passed on to be reported, and
/// the backup file stays in place for a later attempt.
pub open spec fn next_directive(stage: Stage, outcome: Outcome) -> (Stage, Directive) {
    match (stage, outcome) {
        (Stage::Finished, _) => (Stage::Finished, Directive::Abort(Stage::Finished)),
        (Stage::Saving, Outcome::Succeeded) => (Stage::Building, Directive::BuildDatabase),
        (Stage::Building, Outcome::Succeeded) => (Stage::Connecting, Directive::Connect),
        (Stage::Connecting, Outcome::Succeeded) => (Stage::ApplyingSchema, Directive::ApplySchema),
        (Stage::ApplyingSchema, Outcome::Succeeded) => (Stage::Migrating, Directive::Migrate),
        (Stage::Migrating, Outcome::Succeeded) => (
            Stage::Finished,
            Directive::Install { migration_failed: false },
        ),
        (Stage::Migrating, Outcome::Failed) => (
            Stage::Finished,
            Directive::Install { migration_failed: true },
        ),
        (failed, Outcome::Failed) => (Stage::Finished, Directive::Abort(failed)),
    }
}

/// The step that is under way when outcome `i` of `outcomes` arrives, in a
/// run that begins at `stage`.
pub open spec fn stage_at(stage: Stage, outcomes: Seq<Outcome>, i: int) -> Stage
    decreases i,
{
    if i <= 0 || outcomes.len() == 0 {
        stage
    } else {
        stage_at(next_directive(stage, outcomes[0]).0, outcomes.drop_first(), i - 1)
    }
}

/// The directives given, one for each of `outcomes`, from `stage` on.
pub open spec fn directives(stage: Stage, outcomes: Seq<Outcome>) -> Seq<Directive>
    decreases outcomes.len(),
{
    if outcomes.len() == 0 {
        seq![]
    } else {
        let (next, directive) = next_directive(stage, outcomes[0]);
        seq![directive] + directives(next, outcomes.drop_first())
    }
}

impl<D, C, P> DbState<D, C, P> {
    /// Assembles a state from a handle that was built for `config` and the
    /// connection opened on it.
    pub fn new(app_data_dir: P, config: DbConfig, db: D, conn: C) -> (state: Self)
        ensures
            state.db == db,
            state.conn == conn,
            state.config == config,
            state.app_data_dir == app_data_dir,
    {
        DbState { db, conn, config, app_data_dir }
    }

    /// The single connection of the state. Exclusive use of it is the
    /// business of whatever guards the connection, not of this accessor.
    pub fn get_connection(&self) -> (conn: &C)
        ensures
            *conn == self.conn,
    {
        &self.conn
    }

    /// What a request to synchronize leads to under the settings in force.
    pub fn sync(&self) -> (action: SyncAction)
        ensures
            action == sync_decision(self.config@),
    {
        if self.config.enable_sync {
            SyncAction::Synchronize
        } else {
            SyncAction::Nothing
        }
    }

    /// Begins a reconfiguration: gives the settings that the request asks
    /// for, with the interval of the settings in force, and the first step.
    /// The state itself is not touched.
    pub fn update_sync_config(
        &self,
        sync_url: Option<String>,
        auth_token: Option<String>,
        enable_sync: bool,
    ) -> (begun: (DbConfig, Stage, Directive))
        ensures
            begun.0@ == reconfigured(
                self.config@,
                text_of(sync_url),
                text_of(auth_token),
                enable_sync,
            ),
            (begun.1, begun.2) == first_directive(Purpose::Reconfiguration),
    {
        let config = self.config.with_request(sync_url, auth_token, enable_sync);
        (config, Stage::Saving, Directive::SaveConfig)
    }

    /// Replaces handle, connection and settings in one step. The data
    /// directory stays.
    pub fn install(&mut self, db: D, conn: C, config: DbConfig)
        ensures
            final(self).db == db,
            final(self).conn == conn,
            final(self).config == config,
            final(self).app_data_dir == old(self).app_data_dir,
    {
        self.db = db;
        self.conn = conn;
        self.config = config;
    }
}

/// Begins the startup: the first step is the build.
pub fn initialize_db() -> (begun: (Stage, Directive))
    ensures
        begun == first_directive(Purpose::Startup),
{
    (Stage::Building, Directive::BuildDatabase)
}

/// Continues bringing up a state after a step ended, at startup and on
/// reconfiguration alike.
pub fn advance(stage: Stage, outcome: Outcome) -> (step: (Stage, Directive))
    ensures
        step == next_directive(stage, outcome),
{
    match stage {
        Stage::Finished => (Stage::Finished, Directive::Abort(Stage::Finished)),
        Stage::Migrating => match outcome {
            Outcome::Succeeded => (
                Stage::Finished,
                Directive::Install { migration_failed: false },
            ),
            Outcome::Failed => (Stage::Finished, Directive::Install { migration_failed: true }),
        },
        _ => match outcome {
            Outcome::Failed => (Stage::Finished, Directive::Abort(stage)),
            Outcome::Succeeded => match stage {
                Stage::Saving => (Stage::Building, Directive::BuildDatabase),
                Stage::Building => (Stage::Connecting, Directive::Connect),
                Stage::Connecting => (Stage::ApplyingSchema, Directive::ApplySchema),
                _ => (Stage::Migrating, Directive::Migrate),
            },
        },
    }
}

/// A run gives one directive for each outcome.
pub proof fn lemma_one_directive_per_outcome(stage: Stage, outcomes: Seq<Outcome>)
    ensures
        directives(stage, outcomes).len() == outcomes.len(),
    decreases outcomes.len(),
{
    if outcomes.len() > 0 {
        lemma_one_directive_per_outcome(
            next_directive(stage, outcomes[0]).0,
            outcomes.drop_first(),
        );
    }
}

/// Bringing up a state is all or nothing up to the migration. In every
/// run, once a step other than the migration has failed, no directive
/// installs anything: the state that was live stays live and whole.
pub proof fn lemma_failed_step_installs_nothing(
    stage: Stage,
    outcomes: Seq<Outcome>,
    i: int,
    j: int,
)
    requires
        0 <= i <= j < outcomes.len(),
        outcomes[i] == Outcome::Failed,
        stage_at(stage, outcomes, i) != Stage::Migrating,
    ensures
        directives(stage, outcomes).len() == outcomes.len(),
        !(directives(stage, outcomes)[j] is Install),
    decreases outcomes.len(),
{
    lemma_one_directive_per_outcome(stage, outcomes);
    let next = next_directive(stage, outcomes[0]).0;
    lemma_one_directive_per_outcome(next, outcomes.drop_first());
    if j > 0 {
        if i > 0 {
            lemma_failed_step_installs_nothing(next, outcomes.drop_first(), i - 1, j - 1);
        } else {
            assert(next == Stage::Finished);
            lemma_nothing_follows_the_end(outcomes.drop_first(), j - 1);
        }
    }
}

/// A reconfiguration whose settings cannot be saved, whose database cannot
/// be built or connected, or whose schema batch fails never installs
/// anything: the first four outcomes must all be successes before the new
/// state can go live.
pub proof fn lemma_failed_rebuild_keeps_live_state(outcomes: Seq<Outcome>, i: int, j: int)
    requires
        0 <= i <= j < outcomes.len(),
        i < 4,
        outcomes[i] == Outcome::Failed,
    ensures
        directives(Stage::Saving, outcomes).len() == outcomes.len(),
        !(directives(Stage::Saving, outcomes)[j] is Install),
{
    lemma_one_directive_per_outcome(Stage::Saving, outcomes);
    lemma_early_stage_is_not_migration(Stage::Saving, outcomes, i);
    lemma_failed_step_installs_nothing(Stage::Saving, outcomes, i, j);
}

/// The migration is the fifth step of a reconfiguration and the fourth of
/// a startup: before that many outcomes have arrived, the step under way
/// is another one.
pub proof fn lemma_early_stage_is_not_migration(stage: Stage, outcomes: Seq<Outcome>, i: int)
    requires
        0 <= i < outcomes.len(),
        stage == Stage::Saving && i < 4 || stage == Stage::Building && i < 3 || stage
            == Stage::Connecting && i < 2 || stage == Stage::ApplyingSchema && i < 1 || stage
            == Stage::Finished,
    ensures
        stage_at(stage, outcomes, i) != Stage::Migrating,
    decreases i,
{
    if i > 0 {
        lemma_early_stage_is_not_migration(
            next_directive(stage, outcomes[0]).0,
            outcomes.drop_first(),
            i - 1,
        );
    }
}

/// After the end nothing is installed and nothing else is started: every
/// further outcome is refused.
pub proof fn lemma_nothing_follows_the_end(outcomes: Seq<Outcome>, k: int)
    requires
        0 <= k < outcomes.len(),
    ensures
        directives(Stage::Finished, outcomes).len() == outcomes.len(),
        directives(Stage::Finished, outcomes)[k] == Directive::Abort(Stage::Finished),
    decreases outcomes.len(),
{
    lemma_one_directive_per_outcome(Stage::Finished, outcomes);
    if k > 0 {
        lemma_nothing_follows_the_end(outcomes.drop_first(), k - 1);
    }
}

/// The steps come in one order: settings, build, connection, schema,
/// migration, installation. A reconfiguration whose five steps succeed
/// installs the new state with its fifth outcome, and not before.
pub proof fn lemma_reconfiguration_order(outcomes: Seq<Outcome>)
    requires
        outcomes.len() == 5,
        forall|k: int| 0 <= k < 5 ==> outcomes[k] == Outcome::Succeeded,
    ensures
        first_directive(Purpose::Reconfiguration) == (Stage::Saving, Directive::SaveConfig),
        directives(Stage::Saving, outcomes) == seq![
            Directive::BuildDatabase,
            Directive::Connect,
            Directive::ApplySchema,
            Directive::Migrate,
            Directive::Install { migration_failed: false },
        ],
{
    let o1 = outcomes.drop_first();
    let o2 = o1.drop_first();
    let o3 = o2.drop_first();
    let o4 = o3.drop_first();
    let o5 = o4.drop_first();
    assert(directives(Stage::Finished, o5) =~= seq![]);
    assert(directives(Stage::Migrating, o4) =~= seq![
        Directive::Install { migration_failed: false },
    ]);
    assert(directives(Stage::ApplyingSchema, o3) =~= seq![
        Directive::Migrate,
        Directive::Install { migration_failed: false },
    ]);
    assert(directives(Stage::Connecting, o2) =~= seq![
        Directive::ApplySchema,
        Directive::Migrate,
        Directive::Install { migration_failed: false },
    ]);
    assert(directives(Stage::Building, o1) =~= seq![
        Directive::Connect,
        Directive::ApplySchema,
        Directive::Migrate,
        Directive::Install { migration_failed: false },
    ]);
    assert(directives(Stage::Saving, outcomes) =~= seq![
        Directive::BuildDatabase,
        Directive::Connect,
        Directive::ApplySchema,
        Directive::Migrate,
        Directive::Install { migration_failed: false },
    ]);
}

/// A failed migration stops neither a startup nor a reconfiguration: the
/// new state is installed and the failure is passed on to be reported.
/// Every other failed step ends the run without an installation.
pub proof fn lemma_failed_migration_is_not_fatal(stage: Stage)
    ensures
        next_directive(Stage::Migrating, Outcome::Failed) == (
            Stage::Finished,
            Directive::Install { migration_failed: true },
        ),
        stage != Stage::Migrating ==> !(next_directive(stage, Outcome::Failed).1 is Install),
{
}

/// Switching synchronization off makes a request to synchronize a no-op,
/// whatever address and token remain set.
pub proof fn lemma_sync_off_is_noop(config: DbConfigModel)
    requires
        !config.enable_sync,
    ensures
        sync_decision(config) == SyncAction::Nothing,
{
}

} // verus!
