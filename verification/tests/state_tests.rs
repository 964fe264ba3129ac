use paper_trail_db::builder::{build_database, continue_build, BuildAction, BuildEvent, Flavor};
use paper_trail_db::config::{load_config, DbConfig, SyncInterval};
use paper_trail_db::state::{
    advance, initialize_db, DbState, Directive, Outcome, Stage, SyncAction,
};

fn config(url: Option<&str>, token: Option<&str>, enable_sync: bool) -> DbConfig {
    DbConfig {
        sync_url: url.map(str::to_string),
        auth_token: token.map(str::to_string),
        sync_interval: SyncInterval { secs: 60, nanos: 0 },
        enable_sync,
    }
}

/// Feeds the outcomes to a run and gives the directives that followed the
/// first one.
fn run(mut stage: Stage, outcomes: &[Outcome]) -> Vec<Directive> {
    let mut given = Vec::new();
    for outcome in outcomes {
        let (next, directive) = advance(stage, *outcome);
        stage = next;
        given.push(directive);
    }
    given
}

/// Builds a handle for `config` with an engine that always succeeds.
fn build(config: &DbConfig) -> Flavor {
    let (phase, _) = build_database(config);
    match continue_build(phase, BuildEvent::Opened) {
        (_, BuildAction::Done(flavor)) => flavor,
        other => panic!("unexpected {:?}", other),
    }
}

#[test]
fn new_state_holds_what_it_was_given() {
    let state = DbState::new("dir".to_string(), config(None, None, true), 1u32, 2u64);
    assert_eq!(state.db, 1);
    assert_eq!(state.conn, 2);
    assert_eq!(state.config, config(None, None, true));
    assert_eq!(state.app_data_dir, "dir");
    assert_eq!(*state.get_connection(), 2);
}

#[test]
fn sync_runs_only_when_enabled() {
    let enabled = DbState::new((), config(Some("u"), Some("t"), true), (), ());
    assert_eq!(enabled.sync(), SyncAction::Synchronize);
    let disabled = DbState::new((), config(Some("u"), Some("t"), false), (), ());
    assert_eq!(disabled.sync(), SyncAction::Nothing);
    let no_credentials = DbState::new((), config(None, None, true), (), ());
    assert_eq!(no_credentials.sync(), SyncAction::Synchronize);
}

#[test]
fn install_replaces_handle_connection_and_settings() {
    let mut state = DbState::new("dir", config(None, None, true), 'a', 1u8);
    state.install('b', 2, config(Some("u"), Some("t"), true));
    assert_eq!(state.db, 'b');
    assert_eq!(state.conn, 2);
    assert_eq!(state.config, config(Some("u"), Some("t"), true));
    assert_eq!(state.app_data_dir, "dir");
}

#[test]
fn startup_steps_in_order() {
    assert_eq!(initialize_db(), (Stage::Building, Directive::BuildDatabase));
    assert_eq!(
        run(Stage::Building, &[Outcome::Succeeded; 4]),
        vec![
            Directive::Connect,
            Directive::ApplySchema,
            Directive::Migrate,
            Directive::Install { migration_failed: false },
        ]
    );
}

#[test]
fn startup_survives_a_failed_migration() {
    let outcomes =
        [Outcome::Succeeded, Outcome::Succeeded, Outcome::Succeeded, Outcome::Failed];
    assert_eq!(
        run(Stage::Building, &outcomes).last(),
        Some(&Directive::Install { migration_failed: true })
    );
}

#[test]
fn startup_stops_at_any_other_failure() {
    assert_eq!(
        run(Stage::Building, &[Outcome::Failed]),
        vec![Directive::Abort(Stage::Building)]
    );
    assert_eq!(
        run(Stage::Building, &[Outcome::Succeeded, Outcome::Failed]),
        vec![Directive::Connect, Directive::Abort(Stage::Connecting)]
    );
    assert_eq!(
        run(
            Stage::Building,
            &[Outcome::Succeeded, Outcome::Succeeded, Outcome::Failed]
        ),
        vec![Directive::Connect, Directive::ApplySchema, Directive::Abort(Stage::ApplyingSchema)]
    );
}

#[test]
fn reconfiguration_steps_in_order() {
    let state = DbState::new((), config(None, None, true), (), ());
    let (asked, stage, first) =
        state.update_sync_config(Some("u".to_string()), Some("t".to_string()), true);
    assert_eq!(asked, config(Some("u"), Some("t"), true));
    assert_eq!((stage, first), (Stage::Saving, Directive::SaveConfig));
    assert_eq!(
        run(stage, &[Outcome::Succeeded; 5]),
        vec![
            Directive::BuildDatabase,
            Directive::Connect,
            Directive::ApplySchema,
            Directive::Migrate,
            Directive::Install { migration_failed: false },
        ]
    );
}

#[test]
fn reconfiguration_keeps_the_interval_in_force() {
    let mut current = config(None, None, true);
    current.sync_interval = SyncInterval { secs: 300, nanos: 1 };
    let state = DbState::new((), current, (), ());
    let (asked, _, _) = state.update_sync_config(None, None, false);
    assert_eq!(asked.sync_interval, SyncInterval { secs: 300, nanos: 1 });
}

#[test]
fn failed_step_before_the_migration_installs_nothing() {
    let stages = [Stage::Saving, Stage::Building, Stage::Connecting, Stage::ApplyingSchema];
    for failing in 0..4usize {
        let mut outcomes = vec![Outcome::Succeeded; 5];
        outcomes[failing] = Outcome::Failed;
        let given = run(Stage::Saving, &outcomes);
        assert!(given.iter().all(|d| !matches!(d, Directive::Install { .. })), "{failing}");
        assert_eq!(given[failing], Directive::Abort(stages[failing]));
    }
}

#[test]
fn reconfiguration_survives_a_failed_migration() {
    let mut outcomes = vec![Outcome::Succeeded; 5];
    outcomes[4] = Outcome::Failed;
    let given = run(Stage::Saving, &outcomes);
    assert_eq!(given[4], Directive::Install { migration_failed: true });
    assert_eq!(
        advance(Stage::Migrating, Outcome::Failed),
        (Stage::Finished, Directive::Install { migration_failed: true })
    );
}

#[test]
fn failed_rebuild_leaves_the_live_state_untouched() {
    let mut state = DbState::new("dir", config(None, None, true), "old db", "old conn");
    let (asked, mut stage, mut directive) =
        state.update_sync_config(Some("u".to_string()), Some("t".to_string()), true);
    let mut candidate: Option<&str> = None;
    loop {
        let outcome = match directive {
            Directive::SaveConfig => Outcome::Succeeded,
            Directive::BuildDatabase => Outcome::Failed,
            Directive::Install { .. } => {
                state.install(candidate.unwrap(), "new conn", asked);
                break;
            }
            Directive::Abort(_) => break,
            _ => {
                candidate = Some("new db");
                Outcome::Succeeded
            }
        };
        let step = advance(stage, outcome);
        stage = step.0;
        directive = step.1;
    }
    assert_eq!(directive, Directive::Abort(Stage::Building));
    assert_eq!(state.db, "old db");
    assert_eq!(*state.get_connection(), "old conn");
    assert_eq!(state.config, config(None, None, true));
}

#[test]
fn nothing_follows_the_end() {
    assert_eq!(
        advance(Stage::Finished, Outcome::Succeeded),
        (Stage::Finished, Directive::Abort(Stage::Finished))
    );
    assert_eq!(
        advance(Stage::Finished, Outcome::Failed),
        (Stage::Finished, Directive::Abort(Stage::Finished))
    );
}

#[test]
fn end_to_end_from_local_to_replica_and_back() {
    // No settings file: the defaults apply and the store is local only.
    let settings = load_config(None);
    assert_eq!(build(&settings), Flavor::Local);
    let mut state = DbState::new("data", settings, Flavor::Local, 0u32);
    assert_eq!(state.db, Flavor::Local);

    // Enable synchronization with address and token: every step succeeds.
    let (asked, stage, first) = state.update_sync_config(
        Some("libsql://example.turso.io".to_string()),
        Some("token".to_string()),
        true,
    );
    assert_eq!(first, Directive::SaveConfig);
    let saved = asked.persisted();
    let given = run(stage, &[Outcome::Succeeded; 5]);
    assert_eq!(given.last(), Some(&Directive::Install { migration_failed: false }));
    let flavor = build(&asked);
    state.install(flavor, 1, asked);
    assert_eq!(state.db, Flavor::Replica);
    assert_eq!(*state.get_connection(), 1);
    assert_eq!(state.sync(), SyncAction::Synchronize);
    assert_eq!(load_config(Some(saved)).wants_replica(), true);

    // Switch synchronization off again: back to the local file.
    let (asked, stage, _) = state.update_sync_config(
        Some("libsql://example.turso.io".to_string()),
        Some("token".to_string()),
        false,
    );
    let given = run(stage, &[Outcome::Succeeded; 5]);
    assert_eq!(given.last(), Some(&Directive::Install { migration_failed: false }));
    let flavor = build(&asked);
    state.install(flavor, 2, asked);
    assert_eq!(state.db, Flavor::Local);
    assert_eq!(state.sync(), SyncAction::Nothing);
    assert_eq!(state.app_data_dir, "data");
}
