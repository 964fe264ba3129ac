//! Backup migration: copying the rows of a database file that was set aside
//! into the database that took its place.
//!
//! The tables are copied in a fixed order in which a table comes after the
//! tables it refers to. Rows are copied one at a time, and the backup file is
//! removed only after the last table has been read to its end. Reading and
//! writing is the caller's work; this module names the statements and
//! decides what comes next.

use crate::text::{decimal, decimal_text, join, joined, views};
use vstd::prelude::*;

verus! {

/// The tables that a migration copies.
#[derive(Debug, Clone, Copy, PartialEq, Eq)]
pub enum Table {
    UserProfile,
    Projects,
    Timesheets,
    TimesheetEntries,
    Transactions,
    /// The table that records the schema version; it is copied last.
    SchemaMigrations,
}

/// The place of a table in the copying order.
pub open spec fn position(table: Table) -> nat {
    match table {
        Table::UserProfile => 0,
        Table::Projects => 1,
        Table::Timesheets => 2,
        Table::TimesheetEntries => 3,
        Table::Transactions => 4,
        Table::SchemaMigrations => 5,
    }
}

/// The table copied after `table`, if any.
pub open spec fn successor(table: Table) -> Option<Table> {
    match table {
        Table::UserProfile => Some(Table::Projects),
        Table::Projects => Some(Table::Timesheets),
        Table::Timesheets => Some(Table::TimesheetEntries),
        Table::TimesheetEntries => Some(Table::Transactions),
        Table::Transactions => Some(Table::SchemaMigrations),
        Table::SchemaMigrations => None,
    }
}

/// Whether rows of `child` refer to rows of `parent` by one of their
/// columns.
pub open spec fn refers_to(child: Table, parent: Table) -> bool {
    match (child, parent) {
        (Table::Projects, Table::UserProfile) => true,
        (Table::Timesheets, Table::Projects) => true,
        (Table::Timesheets, Table::UserProfile) => true,
        (Table::TimesheetEntries, Table::Timesheets) => true,
        (Table::TimesheetEntries, Table::UserProfile) => true,
        (Table::Transactions, Table::Projects) => true,
        (Table::Transactions, Table::UserProfile) => true,
        _ => false,
    }
}

/// The name of a table.
pub open spec fn table_name(table: Table) -> Seq<char> {
    match table {
        Table::UserProfile => "user_profile"@,
        Table::Projects => "projects"@,
        Table::Timesheets => "timesheets"@,
        Table::TimesheetEntries => "timesheet_entries"@,
        Table::Transactions => "transactions"@,
        Table::SchemaMigrations => "schema_migrations"@,
    }
}

/// The columns of a table that are copied, in the order in which they are
/// selected and bound.
pub open spec fn table_columns(table: Table) -> Seq<Seq<char>> {
    match table {
        Table::UserProfile => seq![
            "id"@,
            "uuid"@,
            "displayName"@,
            "email"@,
            "createdAt"@,
            "updatedAt"@,
        ],
        Table::Projects => seq![
            "id"@,
            "active"@,
            "name"@,
            "customerId"@,
            "rate_in_cents"@,
            "description"@,
            "createdAt"@,
            "updatedAt"@,
            "userId"@,
        ],
        Table::Timesheets => seq![
            "id"@,
            "projectId"@,
            "invoiceId"@,
            "name"@,
            "description"@,
            "active"@,
            "createdAt"@,
            "updatedAt"@,
            "userId"@,
        ],
        Table::TimesheetEntries => seq![
            "id"@,
            "timesheetId"@,
            "date"@,
            "minutes"@,
            "description"@,
            "amount"@,
            "createdAt"@,
            "updatedAt"@,
            "userId"@,
        ],
        Table::Transactions => seq![
            "id"@,
            "projectId"@,
            "date"@,
            "description"@,
            "amount"@,
            "filePath"@,
            "createdAt"@,
            "updatedAt"@,
            "userId"@,
        ],
        Table::SchemaMigrations => seq!["version"@],
    }
}

/// The `k`-th positional placeholder, counted from one.
pub open spec fn placeholder(k: nat) -> Seq<char> {
    seq!['$'] + decimal(k)
}

/// The first `n` placeholders, separated by a comma and a space.
pub open spec fn placeholders(n: nat) -> Seq<char>
    decreases n,
{
    if n == 0 {
        Seq::empty()
    } else if n == 1 {
        placeholder(1)
    } else {
        placeholders((n - 1) as nat) + ", "@ + placeholder(n)
    }
}

/// The statement that reads every row of a table from the backup, with an
/// explicit column list.
pub open spec fn select_text(table: Table) -> Seq<char> {
    "SELECT "@ + joined(table_columns(table), ", "@) + " FROM "@ + table_name(table)
}

/// The statement that writes one row into the new database and skips a row
/// whose key is already there.
pub open spec fn insert_text(table: Table) -> Seq<char> {
    "INSERT OR IGNORE INTO "@ + table_name(table) + " ("@ + joined(table_columns(table), ", "@)
        + ") VALUES ("@ + placeholders(table_columns(table).len()) + ")"@
}

impl Table {
    /// The table that is copied first.
    pub fn first() -> (table: Table)
        ensures
            position(table) == 0,
    {
        Table::UserProfile
    }

    /// The table that is copied after this one.
    pub fn next(self) -> (table: Option<Table>)
        ensures
            table == successor(self),
    {
        match self {
            Table::UserProfile => Some(Table::Projects),
            Table::Projects => Some(Table::Timesheets),
            Table::Timesheets => Some(Table::TimesheetEntries),
            Table::TimesheetEntries => Some(Table::Transactions),
            Table::Transactions => Some(Table::SchemaMigrations),
            Table::SchemaMigrations => None,
        }
    }

    /// The name of the table.
    pub fn name(self) -> (name: &'static str)
        ensures
            name@ == table_name(self),
    {
        match self {
            Table::UserProfile => "user_profile",
            Table::Projects => "projects",
            Table::Timesheets => "timesheets",
            Table::TimesheetEntries => "timesheet_entries",
            Table::Transactions => "transactions",
            Table::SchemaMigrations => "schema_migrations",
        }
    }

    /// The columns of the table that are copied.
    pub fn columns(self) -> (columns: Vec<&'static str>)
        ensures
            views(columns@) == table_columns(self),
    {
        let columns: Vec<&'static str> = match self {
            Table::UserProfile => vec![
                "id",
                "uuid",
                "displayName",
                "email",
                "createdAt",
                "updatedAt",
            ],
            Table::Projects => vec![
                "id",
                "active",
                "name",
                "customerId",
                "rate_in_cents",
                "description",
                "createdAt",
                "updatedAt",
                "userId",
            ],
            Table::Timesheets => vec![
                "id",
                "projectId",
                "invoiceId",
                "name",
                "description",
                "active",
                "createdAt",
                "updatedAt",
                "userId",
            ],
            Table::TimesheetEntries => vec![
                "id",
                "timesheetId",
                "date",
                "minutes",
                "description",
                "amount",
                "createdAt",
                "updatedAt",
                "userId",
            ],
            Table::Transactions => vec![
                "id",
                "projectId",
                "date",
                "description",
                "amount",
                "filePath",
                "createdAt",
                "updatedAt",
                "userId",
            ],
            Table::SchemaMigrations => vec!["version"],
        };
        assert(views(columns@) =~= table_columns(self));
        columns
    }

    /// How many values a row of the table carries.
    pub fn column_count(self) -> (count: usize)
        ensures
            count == table_columns(self).len(),
    {
        match self {
            Table::UserProfile => 6,
            Table::SchemaMigrations => 1,
            _ => 9,
        }
    }

    /// The text of the statement that reads the table from the backup.
    pub fn select_sql(self) -> (sql: String)
        ensures
            sql@ == select_text(self),
    {
        let mut sql = String::from_str("SELECT ");
        let columns = join(&self.columns(), ", ");
        sql.append(columns.as_str());
        sql.append(" FROM ");
        sql.append(self.name());
        sql
    }

    /// The text of the statement that writes a row into the new database.
    pub fn insert_sql(self) -> (sql: String)
        ensures
            sql@ == insert_text(self),
    {
        let mut sql = String::from_str("INSERT OR IGNORE INTO ");
        let columns = join(&self.columns(), ", ");
        let marks = placeholder_list(self.column_count());
        sql.append(self.name());
        sql.append(" (");
        sql.append(columns.as_str());
        sql.append(") VALUES (");
        sql.append(marks.as_str());
        sql.append(")");
        sql
    }
}

/// The first `n` positional placeholders, separated by a comma and a space.
pub fn placeholder_list(n: usize) -> (text: String)
    requires
        n < usize::MAX,
    ensures
        text@ == placeholders(n as nat),
{
    let mut text = String::new();
    let mut k: usize = 0;
    while k < n
        invariant
            k <= n < usize::MAX,
            text@ == placeholders(k as nat),
        decreases n - k,
    {
        if k > 0 {
            text.append(", ");
        }
        text.push('$');
        let numeral = decimal_text(k + 1);
        text.append(numeral.as_str());
        proof {
            if k == 0 {
                assert(text@ =~= placeholder(1));
            } else {
                assert(text@ =~= placeholders(k as nat) + ", "@ + placeholder((k + 1) as nat));
            }
        }
        k += 1;
    }
    text
}

/// Where a migration stands.
#[derive(Debug, Clone, Copy, PartialEq, Eq)]
pub enum MigrationPhase {
    /// Waiting to learn whether a backup file exists.
    Checking,
    /// Waiting for the backup file to be opened as a database.
    Opening,
    /// Waiting for a connection to the backup.
    Connecting,
    /// Waiting for the rows of a table to be selected.
    Selecting(Table),
    /// Waiting for the next row of a table.
    Fetching(Table),
    /// Waiting for the fetched row to be written to the new database.
    Copying(Table),
    /// Waiting for the backup file to be removed.
    Removing,
    /// The migration has ended.
    Finished,
}

/// The step at which a migration failed.
#[derive(Debug, Clone, Copy, PartialEq, Eq)]
pub enum MigrationFailure {
    /// The backup file could not be opened as a database.
    OpenBackup,
    /// No connection to the backup could be had.
    ConnectBackup,
    /// The rows of the table could not be selected.
    ReadTable(Table),
    /// A row of the table could not be fetched.
    ReadRow(Table),
    /// A value of a fetched row of the table could not be read.
    ReadValue(Table),
    /// A row could not be written to the table.
    Insert(Table),
    /// An event was reported that the phase does not wait for.
    OutOfOrder,
}

/// What the caller is to do next.
#[derive(Debug, Clone, Copy, PartialEq, Eq)]
pub enum MigrationAction {
    /// Find out whether the backup file exists.
    CheckBackup,
    /// Open the backup file as a local database of its own.
    OpenBackup,
    /// Connect to the backup.
    ConnectBackup,
    /// Run the select statement of the table on the backup.
    Select(Table),
    /// Fetch the next row of the running select.
    FetchRow,
    /// Read the values of the fetched row, as many as the table has
    /// columns, and run the insert statement of the table with them on the
    /// new connection.
    CopyRow(Table),
    /// Remove the backup file; a failure to do so is ignored.
    RemoveBackup,
    /// The migration succeeded.
    Done,
    /// The migration failed at this step, for the cause that was reported.
    /// The backup file stays where it is.
    Fail(MigrationFailure),
}

/// What the caller reports.
#[derive(Debug, Clone, Copy, PartialEq, Eq)]
pub enum MigrationEvent {
    /// There is no backup file.
    BackupAbsent,
    /// There is a backup file.
    BackupPresent,
    /// The action was carried out.
    Succeeded,
    /// A row was fetched.
    RowFetched,
    /// The select has no more rows.
    RowsExhausted,
    /// The action failed.
    Failed,
    /// While copying a row, reading one of its values failed.
    ValueFailed,
}

/// How a migration begins.
pub open spec fn first_migration_step() -> (MigrationPhase, MigrationAction) {
    (MigrationPhase::Checking, MigrationAction::CheckBackup)
}

/// How a migration goes on after an event.
pub open spec fn next_migration_step(phase: MigrationPhase, event: MigrationEvent) -> (
    MigrationPhase,
    MigrationAction,
) {
    match (phase, event) {
        (MigrationPhase::Checking, MigrationEvent::BackupAbsent) => (
            MigrationPhase::Finished,
            MigrationAction::Done,
        ),
        (MigrationPhase::Checking, MigrationEvent::BackupPresent) => (
            MigrationPhase::Opening,
            MigrationAction::OpenBackup,
        ),
        (MigrationPhase::Opening, MigrationEvent::Succeeded) => (
            MigrationPhase::Connecting,
            MigrationAction::ConnectBackup,
        ),
        (MigrationPhase::Opening, MigrationEvent::Failed) => (
            MigrationPhase::Finished,
            MigrationAction::Fail(MigrationFailure::OpenBackup),
        ),
        (MigrationPhase::Connecting, MigrationEvent::Succeeded) => (
            MigrationPhase::Selecting(Table::UserProfile),
            MigrationAction::Select(Table::UserProfile),
        ),
        (MigrationPhase::Connecting, MigrationEvent::Failed) => (
            MigrationPhase::Finished,
            MigrationAction::Fail(MigrationFailure::ConnectBackup),
        ),
        (MigrationPhase::Selecting(table), MigrationEvent::Succeeded) => (
            MigrationPhase::Fetching(table),
            MigrationAction::FetchRow,
        ),
        (MigrationPhase::Selecting(table), MigrationEvent::Failed) => (
            MigrationPhase::Finished,
            MigrationAction::Fail(MigrationFailure::ReadTable(table)),
        ),
        (MigrationPhase::Fetching(table), MigrationEvent::RowFetched) => (
            MigrationPhase::Copying(table),
            MigrationAction::CopyRow(table),
        ),
        (MigrationPhase::Fetching(table), MigrationEvent::RowsExhausted) => match successor(
            table,
        ) {
            Some(next) => (MigrationPhase::Selecting(next), MigrationAction::Select(next)),
            None => (MigrationPhase::Removing, MigrationAction::RemoveBackup),
        },
        (MigrationPhase::Fetching(table), MigrationEvent::Failed) => (
            MigrationPhase::Finished,
            MigrationAction::Fail(MigrationFailure::ReadRow(table)),
        ),
        (MigrationPhase::Copying(table), MigrationEvent::Succeeded) => (
            MigrationPhase::Fetching(table),
            MigrationAction::FetchRow,
        ),
        (MigrationPhase::Copying(table), MigrationEvent::ValueFailed) => (
            MigrationPhase::Finished,
            MigrationAction::Fail(MigrationFailure::ReadValue(table)),
        ),
        (MigrationPhase::Copying(table), MigrationEvent::Failed) => (
            MigrationPhase::Finished,
            MigrationAction::Fail(MigrationFailure::Insert(table)),
        ),
        (MigrationPhase::Removing, MigrationEvent::Succeeded) => (
            MigrationPhase::Finished,
            MigrationAction::Done,
        ),
        (MigrationPhase::Removing, MigrationEvent::Failed) => (
            MigrationPhase::Finished,
            MigrationAction::Done,
        ),
        _ => (MigrationPhase::Finished, MigrationAction::Fail(MigrationFailure::OutOfOrder)),
    }
}

/// The words with which the message of a failure begins.
pub open spec fn failure_lead(failure: MigrationFailure) -> Seq<char> {
    match failure {
        MigrationFailure::OpenBackup => "Failed to open backup: "@,
        MigrationFailure::ConnectBackup => "Failed to connect to backup: "@,
        MigrationFailure::ReadTable(_) => "Failed to read "@,
        MigrationFailure::ReadRow(_) => "Failed to read a row of "@,
        MigrationFailure::ReadValue(_) => "Failed to read a value of "@,
        MigrationFailure::Insert(_) => "Failed to insert into "@,
        MigrationFailure::OutOfOrder => "Migration event out of order: "@,
    }
}

/// The words between the name of the table and the cause.
pub open spec fn failure_tail(failure: MigrationFailure) -> Seq<char> {
    match failure {
        MigrationFailure::Insert(_) => ": "@,
        _ => " from backup: "@,
    }
}

/// Everything that comes before the cause in the message of a failure. A
/// failure at a table names the table.
pub open spec fn failure_prefix(failure: MigrationFailure) -> Seq<char> {
    match failed_table(failure) {
        Some(table) => failure_lead(failure) + table_name(table) + failure_tail(failure),
        None => failure_lead(failure),
    }
}

/// `part` stands in `text` at offset `at`.
pub open spec fn stands_at(text: Seq<char>, part: Seq<char>, at: int) -> bool {
    0 <= at && at + part.len() <= text.len() && text.subrange(at, at + part.len()) == part
}

/// The table at which a failure occurred, where it occurred at one.
pub open spec fn failed_table(failure: MigrationFailure) -> Option<Table> {
    match failure {
        MigrationFailure::ReadTable(table) => Some(table),
        MigrationFailure::ReadRow(table) => Some(table),
        MigrationFailure::ReadValue(table) => Some(table),
        MigrationFailure::Insert(table) => Some(table),
        _ => None,
    }
}

impl MigrationFailure {
    /// The table at which the failure occurred, where it occurred at one.
    pub fn table(self) -> (table: Option<Table>)
        ensures
            table == failed_table(self),
    {
        match self {
            MigrationFailure::ReadTable(table) => Some(table),
            MigrationFailure::ReadRow(table) => Some(table),
            MigrationFailure::ReadValue(table) => Some(table),
            MigrationFailure::Insert(table) => Some(table),
            _ => None,
        }
    }

    /// The message of the failure: what failed and at which table, then the
    /// cause as the engine worded it.
    pub fn message(self, cause: &str) -> (text: String)
        ensures
            text@ == failure_prefix(self) + cause@,
    {
        let lead: &'static str = match self {
            MigrationFailure::OpenBackup => "Failed to open backup: ",
            MigrationFailure::ConnectBackup => "Failed to connect to backup: ",
            MigrationFailure::ReadTable(_) => "Failed to read ",
            MigrationFailure::ReadRow(_) => "Failed to read a row of ",
            MigrationFailure::ReadValue(_) => "Failed to read a value of ",
            MigrationFailure::Insert(_) => "Failed to insert into ",
            MigrationFailure::OutOfOrder => "Migration event out of order: ",
        };
        let mut text = String::from_str(lead);
        match self.table() {
            Some(table) => {
                text.append(table.name());
                match self {
                    MigrationFailure::Insert(_) => {
                        text.append(": ");
                    },
                    _ => {
                        text.append(" from backup: ");
                    },
                }
            },
            None => {},
        }
        assert(text@ =~= failure_prefix(self));
        text.append(cause);
        text
    }
}

/// Begins a migration: the first thing to find out is whether there is a
/// backup at all.
pub fn migrate_from_local_backup() -> (step: (MigrationPhase, MigrationAction))
    ensures
        step == first_migration_step(),
{
    (MigrationPhase::Checking, MigrationAction::CheckBackup)
}

/// Continues a migration after `event`: names the next action and phase.
pub fn continue_migration(phase: MigrationPhase, event: MigrationEvent) -> (step: (
    MigrationPhase,
    MigrationAction,
))
    ensures
        step == next_migration_step(phase, event),
{
    let out_of_order = (
        MigrationPhase::Finished,
        MigrationAction::Fail(MigrationFailure::OutOfOrder),
    );
    match phase {
        MigrationPhase::Checking => match event {
            MigrationEvent::BackupAbsent => (MigrationPhase::Finished, MigrationAction::Done),
            MigrationEvent::BackupPresent => (
                MigrationPhase::Opening,
                MigrationAction::OpenBackup,
            ),
            _ => out_of_order,
        },
        MigrationPhase::Opening => match event {
            MigrationEvent::Succeeded => (
                MigrationPhase::Connecting,
                MigrationAction::ConnectBackup,
            ),
            MigrationEvent::Failed => (
                MigrationPhase::Finished,
                MigrationAction::Fail(MigrationFailure::OpenBackup),
            ),
            _ => out_of_order,
        },
        MigrationPhase::Connecting => match event {
            MigrationEvent::Succeeded => {
                let table = Table::first();
                assert(table == Table::UserProfile);
                (MigrationPhase::Selecting(table), MigrationAction::Select(table))
            },
            MigrationEvent::Failed => (
                MigrationPhase::Finished,
                MigrationAction::Fail(MigrationFailure::ConnectBackup),
            ),
            _ => out_of_order,
        },
        MigrationPhase::Selecting(table) => match event {
            MigrationEvent::Succeeded => (
                MigrationPhase::Fetching(table),
                MigrationAction::FetchRow,
            ),
            MigrationEvent::Failed => (
                MigrationPhase::Finished,
                MigrationAction::Fail(MigrationFailure::ReadTable(table)),
            ),
            _ => out_of_order,
        },
        MigrationPhase::Fetching(table) => match event {
            MigrationEvent::RowFetched => (
                MigrationPhase::Copying(table),
                MigrationAction::CopyRow(table),
            ),
            MigrationEvent::RowsExhausted => match table.next() {
                Some(next) => (MigrationPhase::Selecting(next), MigrationAction::Select(next)),
                None => (MigrationPhase::Removing, MigrationAction::RemoveBackup),
            },
            MigrationEvent::Failed => (
                MigrationPhase::Finished,
                MigrationAction::Fail(MigrationFailure::ReadRow(table)),
            ),
            _ => out_of_order,
        },
        MigrationPhase::Copying(table) => match event {
            MigrationEvent::Succeeded => (
                MigrationPhase::Fetching(table),
                MigrationAction::FetchRow,
            ),
            MigrationEvent::ValueFailed => (
                MigrationPhase::Finished,
                MigrationAction::Fail(MigrationFailure::ReadValue(table)),
            ),
            MigrationEvent::Failed => (
                MigrationPhase::Finished,
                MigrationAction::Fail(MigrationFailure::Insert(table)),
            ),
            _ => out_of_order,
        },
        MigrationPhase::Removing => match event {
            MigrationEvent::Succeeded => (MigrationPhase::Finished, MigrationAction::Done),
            MigrationEvent::Failed => (MigrationPhase::Finished, MigrationAction::Done),
            _ => out_of_order,
        },
        MigrationPhase::Finished => out_of_order,
    }
}

/// The actions that a migration names, one for each of `events`, from
/// `phase` on.
pub open spec fn migration_actions(phase: MigrationPhase, events: Seq<MigrationEvent>) -> Seq<
    MigrationAction,
>
    decreases events.len(),
{
    if events.len() == 0 {
        seq![]
    } else {
        let (next, action) = next_migration_step(phase, events[0]);
        seq![action] + migration_actions(next, events.drop_first())
    }
}

/// A table is copied after every table that its rows refer to.
pub proof fn lemma_parents_come_first(child: Table, parent: Table)
    requires
        refers_to(child, parent),
    ensures
        position(parent) < position(child),
{
}

/// The copying order visits the tables one place at a time and ends with
/// the table that records the schema version.
pub proof fn lemma_order_is_gapless(table: Table)
    ensures
        match successor(table) {
            Some(next) => position(next) == position(table) + 1,
            None => table == Table::SchemaMigrations,
        },
        position(table) <= position(Table::SchemaMigrations),
{
}

/// Where no backup file exists the migration ends at once, with success and
/// without touching anything.
pub proof fn lemma_no_backup_no_work()
    ensures
        next_migration_step(first_migration_step().0, MigrationEvent::BackupAbsent) == (
            MigrationPhase::Finished,
            MigrationAction::Done,
        ),
{
}

/// Rows are streamed: a fetched row is written before the next one is
/// fetched, and the end of a table leads to the next table, or past the
/// last table to the removal of the backup.
pub proof fn lemma_rows_are_streamed(table: Table)
    ensures
        next_migration_step(MigrationPhase::Fetching(table), MigrationEvent::RowFetched) == (
            MigrationPhase::Copying(table),
            MigrationAction::CopyRow(table),
        ),
        next_migration_step(MigrationPhase::Copying(table), MigrationEvent::Succeeded) == (
            MigrationPhase::Fetching(table),
            MigrationAction::FetchRow,
        ),
        next_migration_step(MigrationPhase::Fetching(table), MigrationEvent::RowsExhausted).1 == (
            match successor(table) {
                Some(next) => MigrationAction::Select(next),
                None => MigrationAction::RemoveBackup,
            }
        ),
{
}

/// The backup file is removed in one situation only: the last table has
/// been read to its end.
pub proof fn lemma_removal_needs_last_table(phase: MigrationPhase, event: MigrationEvent)
    ensures
        next_migration_step(phase, event).1 == MigrationAction::RemoveBackup <==> (phase
            == MigrationPhase::Fetching(Table::SchemaMigrations) && event
            == MigrationEvent::RowsExhausted),
{
}

/// A failure to remove the backup file does not make the migration fail.
pub proof fn lemma_removal_is_best_effort(event: MigrationEvent)
    requires
        event == MigrationEvent::Succeeded || event == MigrationEvent::Failed,
    ensures
        next_migration_step(MigrationPhase::Removing, event) == (
            MigrationPhase::Finished,
            MigrationAction::Done,
        ),
{
}

/// In every run, a row is written exactly where a row was fetched: each
/// copy answers a fetched row, and a fetched row is answered by its copy
/// unless it was reported out of order.
pub proof fn lemma_every_row_is_copied(phase: MigrationPhase, events: Seq<MigrationEvent>, k: int)
    requires
        0 <= k < events.len(),
    ensures
        migration_actions(phase, events).len() == events.len(),
        migration_actions(phase, events)[k] is CopyRow ==> events[k]
            == MigrationEvent::RowFetched,
        events[k] == MigrationEvent::RowFetched ==> migration_actions(phase, events)[k] is CopyRow
            || migration_actions(phase, events)[k] == MigrationAction::Fail(
            MigrationFailure::OutOfOrder,
        ),
    decreases events.len(),
{
    lemma_one_action_per_event(phase, events);
    if k > 0 {
        let next = next_migration_step(phase, events[0]).0;
        lemma_every_row_is_copied(next, events.drop_first(), k - 1);
    }
}

/// A run names one action for each event.
pub proof fn lemma_one_action_per_event(phase: MigrationPhase, events: Seq<MigrationEvent>)
    ensures
        migration_actions(phase, events).len() == events.len(),
    decreases events.len(),
{
    if events.len() > 0 {
        lemma_one_action_per_event(next_migration_step(phase, events[0]).0, events.drop_first());
    }
}

/// A migration that failed leaves the backup file in place: in every run,
/// no action after a failure removes it. All that follows a failure is the
/// refusal of further events.
pub proof fn lemma_backup_survives_failure(
    phase: MigrationPhase,
    events: Seq<MigrationEvent>,
    i: int,
    j: int,
)
    requires
        0 <= i < j < events.len(),
        migration_actions(phase, events)[i] is Fail,
    ensures
        migration_actions(phase, events).len() == events.len(),
        migration_actions(phase, events)[j] == MigrationAction::Fail(MigrationFailure::OutOfOrder),
        migration_actions(phase, events)[j] != MigrationAction::RemoveBackup,
    decreases events.len(),
{
    lemma_one_action_per_event(phase, events);
    let next = next_migration_step(phase, events[0]).0;
    lemma_one_action_per_event(next, events.drop_first());
    if i == 0 {
        assert(next == MigrationPhase::Finished);
        lemma_finished_migration_only_refuses(events.drop_first(), j - 1);
    } else {
        lemma_backup_survives_failure(next, events.drop_first(), i - 1, j - 1);
    }
}

/// Once a migration has ended, every further event is refused as out of
/// order.
pub proof fn lemma_finished_migration_only_refuses(events: Seq<MigrationEvent>, k: int)
    requires
        0 <= k < events.len(),
    ensures
        migration_actions(MigrationPhase::Finished, events).len() == events.len(),
        migration_actions(MigrationPhase::Finished, events)[k] == MigrationAction::Fail(
            MigrationFailure::OutOfOrder,
        ),
    decreases events.len(),
{
    lemma_one_action_per_event(MigrationPhase::Finished, events);
    if k > 0 {
        lemma_finished_migration_only_refuses(events.drop_first(), k - 1);
    }
}

/// Every failure at a table carries that table, whichever step failed
/// there: the select, the fetch of a row, the reading of a value or the
/// insert.
pub proof fn lemma_failure_names_table(phase: MigrationPhase, event: MigrationEvent)
    ensures
        match (phase, next_migration_step(phase, event).1) {
            (MigrationPhase::Selecting(table), MigrationAction::Fail(failure)) => failure
                == MigrationFailure::OutOfOrder || failed_table(failure) == Some(table),
            (MigrationPhase::Fetching(table), MigrationAction::Fail(failure)) => failure
                == MigrationFailure::OutOfOrder || failed_table(failure) == Some(table),
            (MigrationPhase::Copying(table), MigrationAction::Fail(failure)) => failure
                == MigrationFailure::OutOfOrder || failed_table(failure) == Some(table),
            _ => true,
        },
{
}

/// The message of a failure at a table holds the name of the table and
/// ends with the cause.
pub proof fn lemma_message_names_table(failure: MigrationFailure, cause: Seq<char>)
    requires
        failed_table(failure) is Some,
    ensures
        exists|at: int|
            stands_at(failure_prefix(failure) + cause, table_name(failed_table(failure)->0), at),
        stands_at(
            failure_prefix(failure) + cause,
            cause,
            (failure_prefix(failure) + cause).len() - cause.len(),
        ),
{
    let table = failed_table(failure)->0;
    let text = failure_prefix(failure) + cause;
    let at = failure_lead(failure).len() as int;
    assert(text.subrange(at, at + table_name(table).len()) =~= table_name(table));
    assert(stands_at(text, table_name(table), at));
    assert(text.subrange(text.len() - cause.len(), text.len() as int) =~= cause);
}

} // verus!
