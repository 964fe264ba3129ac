use paper_trail_db::migration::{
    continue_migration, migrate_from_local_backup, placeholder_list, MigrationAction,
    MigrationEvent, MigrationFailure, MigrationPhase, Table,
};

const ORDER: [Table; 6] = [
    Table::UserProfile,
    Table::Projects,
    Table::Timesheets,
    Table::TimesheetEntries,
    Table::Transactions,
    Table::SchemaMigrations,
];

/// Feeds the events to a migration and gives the actions it named, the
/// first action included.
fn run(events: &[MigrationEvent]) -> Vec<MigrationAction> {
    let (mut phase, first) = migrate_from_local_backup();
    let mut actions = vec![first];
    for event in events {
        let (next, action) = continue_migration(phase, *event);
        phase = next;
        actions.push(action);
    }
    actions
}

/// The events of a migration that succeeds, with `rows[t]` rows in the
/// table at place `t`.
fn events_for(rows: [usize; 6]) -> Vec<MigrationEvent> {
    let mut events =
        vec![MigrationEvent::BackupPresent, MigrationEvent::Succeeded, MigrationEvent::Succeeded];
    for count in rows {
        events.push(MigrationEvent::Succeeded);
        for _ in 0..count {
            events.push(MigrationEvent::RowFetched);
            events.push(MigrationEvent::Succeeded);
        }
        events.push(MigrationEvent::RowsExhausted);
    }
    events.push(MigrationEvent::Succeeded);
    events
}

#[test]
fn tables_come_in_dependency_order() {
    assert_eq!(Table::first(), Table::UserProfile);
    let mut walked = vec![Table::first()];
    while let Some(next) = walked.last().unwrap().next() {
        walked.push(next);
    }
    assert_eq!(walked, ORDER.to_vec());
}

#[test]
fn table_names_and_columns() {
    assert_eq!(Table::UserProfile.name(), "user_profile");
    assert_eq!(Table::Projects.name(), "projects");
    assert_eq!(Table::Timesheets.name(), "timesheets");
    assert_eq!(Table::TimesheetEntries.name(), "timesheet_entries");
    assert_eq!(Table::Transactions.name(), "transactions");
    assert_eq!(Table::SchemaMigrations.name(), "schema_migrations");
    assert_eq!(
        Table::UserProfile.columns(),
        vec!["id", "uuid", "displayName", "email", "createdAt", "updatedAt"]
    );
    assert_eq!(Table::SchemaMigrations.columns(), vec!["version"]);
    for table in ORDER {
        assert_eq!(table.column_count(), table.columns().len());
    }
}

#[test]
fn select_statements() {
    assert_eq!(
        Table::UserProfile.select_sql(),
        "SELECT id, uuid, displayName, email, createdAt, updatedAt FROM user_profile"
    );
    assert_eq!(
        Table::Projects.select_sql(),
        "SELECT id, active, name, customerId, rate_in_cents, description, createdAt, updatedAt, userId FROM projects"
    );
    assert_eq!(
        Table::Timesheets.select_sql(),
        "SELECT id, projectId, invoiceId, name, description, active, createdAt, updatedAt, userId FROM timesheets"
    );
    assert_eq!(
        Table::TimesheetEntries.select_sql(),
        "SELECT id, timesheetId, date, minutes, description, amount, createdAt, updatedAt, userId FROM timesheet_entries"
    );
    assert_eq!(
        Table::Transactions.select_sql(),
        "SELECT id, projectId, date, description, amount, filePath, createdAt, updatedAt, userId FROM transactions"
    );
    assert_eq!(Table::SchemaMigrations.select_sql(), "SELECT version FROM schema_migrations");
}

#[test]
fn insert_statements() {
    assert_eq!(
        Table::UserProfile.insert_sql(),
        "INSERT OR IGNORE INTO user_profile (id, uuid, displayName, email, createdAt, updatedAt) VALUES ($1, $2, $3, $4, $5, $6)"
    );
    assert_eq!(
        Table::Projects.insert_sql(),
        "INSERT OR IGNORE INTO projects (id, active, name, customerId, rate_in_cents, description, createdAt, updatedAt, userId) VALUES ($1, $2, $3, $4, $5, $6, $7, $8, $9)"
    );
    assert_eq!(
        Table::Timesheets.insert_sql(),
        "INSERT OR IGNORE INTO timesheets (id, projectId, invoiceId, name, description, active, createdAt, updatedAt, userId) VALUES ($1, $2, $3, $4, $5, $6, $7, $8, $9)"
    );
    assert_eq!(
        Table::TimesheetEntries.insert_sql(),
        "INSERT OR IGNORE INTO timesheet_entries (id, timesheetId, date, minutes, description, amount, createdAt, updatedAt, userId) VALUES ($1, $2, $3, $4, $5, $6, $7, $8, $9)"
    );
    assert_eq!(
        Table::Transactions.insert_sql(),
        "INSERT OR IGNORE INTO transactions (id, projectId, date, description, amount, filePath, createdAt, updatedAt, userId) VALUES ($1, $2, $3, $4, $5, $6, $7, $8, $9)"
    );
    assert_eq!(
        Table::SchemaMigrations.insert_sql(),
        "INSERT OR IGNORE INTO schema_migrations (version) VALUES ($1)"
    );
}

#[test]
fn placeholders_count_from_one() {
    assert_eq!(placeholder_list(0), "");
    assert_eq!(placeholder_list(1), "$1");
    assert_eq!(placeholder_list(3), "$1, $2, $3");
    assert_eq!(
        placeholder_list(12),
        "$1, $2, $3, $4, $5, $6, $7, $8, $9, $10, $11, $12"
    );
}

#[test]
fn no_backup_is_success_without_work() {
    assert_eq!(
        run(&[MigrationEvent::BackupAbsent]),
        vec![MigrationAction::CheckBackup, MigrationAction::Done]
    );
}

#[test]
fn empty_backup_visits_every_table_and_removes_the_file() {
    let actions = run(&events_for([0; 6]));
    let mut expected =
        vec![MigrationAction::CheckBackup, MigrationAction::OpenBackup, MigrationAction::ConnectBackup];
    for table in ORDER {
        expected.push(MigrationAction::Select(table));
        expected.push(MigrationAction::FetchRow);
    }
    expected.push(MigrationAction::RemoveBackup);
    expected.push(MigrationAction::Done);
    assert_eq!(actions, expected);
}

#[test]
fn every_row_is_copied_into_its_table() {
    let rows = [1, 2, 0, 3, 1, 1];
    let actions = run(&events_for(rows));
    for (place, table) in ORDER.iter().enumerate() {
        let copies = actions.iter().filter(|a| **a == MigrationAction::CopyRow(*table)).count();
        assert_eq!(copies, rows[place]);
    }
    let total = actions.iter().filter(|a| matches!(a, MigrationAction::CopyRow(_))).count();
    assert_eq!(total, 8);
    assert_eq!(actions.iter().filter(|a| **a == MigrationAction::RemoveBackup).count(), 1);
    assert_eq!(actions.last(), Some(&MigrationAction::Done));
    assert_eq!(actions[actions.len() - 2], MigrationAction::RemoveBackup);
}

#[test]
fn rows_are_copied_one_at_a_time() {
    let actions = run(&events_for([2, 0, 0, 0, 0, 0]));
    assert_eq!(
        &actions[3..9],
        &[
            MigrationAction::Select(Table::UserProfile),
            MigrationAction::FetchRow,
            MigrationAction::CopyRow(Table::UserProfile),
            MigrationAction::FetchRow,
            MigrationAction::CopyRow(Table::UserProfile),
            MigrationAction::FetchRow,
        ]
    );
}

#[test]
fn failure_partway_keeps_the_backup() {
    let mut events = events_for([1, 1, 1, 1, 1, 1]);
    events.truncate(10);
    events.push(MigrationEvent::RowFetched);
    events.push(MigrationEvent::Failed);
    events.push(MigrationEvent::RowsExhausted);
    events.push(MigrationEvent::Succeeded);
    let actions = run(&events);
    assert!(actions.contains(&MigrationAction::Fail(MigrationFailure::Insert(Table::Projects))));
    assert!(!actions.contains(&MigrationAction::RemoveBackup));
    assert!(!actions.contains(&MigrationAction::Done));
    assert_eq!(actions.last(), Some(&MigrationAction::Fail(MigrationFailure::OutOfOrder)));
}

#[test]
fn each_step_fails_with_its_own_failure() {
    let finished = MigrationPhase::Finished;
    let table = Table::Timesheets;
    let cases = [
        (MigrationPhase::Opening, MigrationEvent::Failed, MigrationFailure::OpenBackup),
        (MigrationPhase::Connecting, MigrationEvent::Failed, MigrationFailure::ConnectBackup),
        (MigrationPhase::Selecting(table), MigrationEvent::Failed, MigrationFailure::ReadTable(table)),
        (MigrationPhase::Fetching(table), MigrationEvent::Failed, MigrationFailure::ReadRow(table)),
        (MigrationPhase::Copying(table), MigrationEvent::ValueFailed, MigrationFailure::ReadValue(table)),
        (MigrationPhase::Copying(table), MigrationEvent::Failed, MigrationFailure::Insert(table)),
        (MigrationPhase::Checking, MigrationEvent::Failed, MigrationFailure::OutOfOrder),
        (MigrationPhase::Finished, MigrationEvent::Succeeded, MigrationFailure::OutOfOrder),
    ];
    for (phase, event, failure) in cases {
        assert_eq!(continue_migration(phase, event), (finished, MigrationAction::Fail(failure)));
    }
}

#[test]
fn failing_to_remove_the_backup_is_no_failure() {
    assert_eq!(
        continue_migration(MigrationPhase::Removing, MigrationEvent::Failed),
        (MigrationPhase::Finished, MigrationAction::Done)
    );
    assert_eq!(
        continue_migration(MigrationPhase::Removing, MigrationEvent::Succeeded),
        (MigrationPhase::Finished, MigrationAction::Done)
    );
}

#[test]
fn failure_messages() {
    let t = Table::Projects;
    assert_eq!(MigrationFailure::OpenBackup.message("boom"), "Failed to open backup: boom");
    assert_eq!(
        MigrationFailure::ConnectBackup.message("boom"),
        "Failed to connect to backup: boom"
    );
    assert_eq!(
        MigrationFailure::ReadTable(t).message("boom"),
        "Failed to read projects from backup: boom"
    );
    assert_eq!(
        MigrationFailure::ReadRow(t).message("boom"),
        "Failed to read a row of projects from backup: boom"
    );
    assert_eq!(
        MigrationFailure::ReadValue(t).message("boom"),
        "Failed to read a value of projects from backup: boom"
    );
    assert_eq!(
        MigrationFailure::Insert(t).message("boom"),
        "Failed to insert into projects: boom"
    );
    assert_eq!(
        MigrationFailure::Insert(Table::TimesheetEntries).message(""),
        "Failed to insert into timesheet_entries: "
    );
}

#[test]
fn failures_at_a_table_name_the_table() {
    let t = Table::Transactions;
    assert_eq!(MigrationFailure::ReadTable(t).table(), Some(t));
    assert_eq!(MigrationFailure::ReadRow(t).table(), Some(t));
    assert_eq!(MigrationFailure::ReadValue(t).table(), Some(t));
    assert_eq!(MigrationFailure::Insert(t).table(), Some(t));
    assert_eq!(MigrationFailure::OpenBackup.table(), None);
    assert_eq!(MigrationFailure::ConnectBackup.table(), None);
    assert_eq!(MigrationFailure::OutOfOrder.table(), None);
}

#[test]
fn every_failure_at_a_table_names_the_table_and_the_cause() {
    for table in ORDER {
        let failures = [
            MigrationFailure::ReadTable(table),
            MigrationFailure::ReadRow(table),
            MigrationFailure::ReadValue(table),
            MigrationFailure::Insert(table),
        ];
        for failure in failures {
            let text = failure.message("disk I/O error");
            assert!(text.contains(table.name()), "{text}");
            assert!(text.ends_with("disk I/O error"), "{text}");
        }
    }
    assert_eq!(
        MigrationFailure::ReadRow(Table::UserProfile).message("x"),
        "Failed to read a row of user_profile from backup: x"
    );
}
