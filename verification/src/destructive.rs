//! Destructive change checks: before a SQL migration drops tables or
//! columns, the checker counts the rows (or non-null values) that would be
//! lost and warns about each drop that loses data.
//!
//! The checks are planned from the migration's steps, in order. Running them
//! needs the database, so the checker is a state machine: it asks for one
//! count query at a time, is handed the result, and either fails, asks for
//! the next query, or is done.

use vstd::prelude::*;
use vstd::string::*;
use crate::database::{DbValue, ResultSet, SqlError};
use crate::text::{int_decimal, push_i64, str_eq};

verus! {

/// A table of a database schema.
#[derive(Debug)]
pub struct Table {
    pub name: String,
}

/// A database schema: its tables.
#[derive(Debug)]
pub struct SqlSchema {
    pub tables: Vec<Table>,
}

/// The first table of `tables` with the given name.
pub open spec fn find_table(tables: Seq<Table>, name: Seq<char>) -> Option<Table>
    decreases tables.len(),
{
    if tables.len() == 0 {
        None
    } else if tables[0].name@ == name {
        Some(tables[0])
    } else {
        find_table(tables.drop_first(), name)
    }
}

impl SqlSchema {
    /// The table with the given name (the first one, if several).
    pub fn get_table(&self, name: &str) -> (res: Option<&Table>)
        ensures
            match res {
                Some(t) => find_table(self.tables@, name@) == Some(*t),
                None => find_table(self.tables@, name@) is None,
            },
    {
        let n = self.tables.len();
        assert(self.tables@.skip(0) =~= self.tables@);
        for i in 0..n
            invariant
                n == self.tables@.len(),
                find_table(self.tables@, name@) == find_table(self.tables@.skip(i as int), name@),
        {
            proof {
                assert(self.tables@.skip(i as int)[0] == self.tables@[i as int]);
                assert(self.tables@.skip(i as int).drop_first() =~= self.tables@.skip(i + 1));
            }
            if str_eq(self.tables[i].name.as_str(), name) {
                return Some(&self.tables[i]);
            }
        }
        assert(self.tables@.skip(n as int).len() == 0);
        None
    }
}

/// A column that a table change drops.
#[derive(Debug)]
pub struct DropColumn {
    pub name: String,
}

/// A change to the columns of a table.
#[derive(Debug)]
pub enum TableChange {
    AddColumn { name: String },
    AlterColumn { name: String },
    DropColumn(DropColumn),
}

/// Changes to a table (the table as it will be after the migration).
#[derive(Debug)]
pub struct AlterTable {
    pub table: Table,
    pub changes: Vec<TableChange>,
}

/// Dropping one table.
#[derive(Debug)]
pub struct DropTable {
    pub name: String,
}

/// Dropping several tables.
#[derive(Debug)]
pub struct DropTables {
    pub names: Vec<String>,
}

/// Creating a table.
#[derive(Debug)]
pub struct CreateTable {
    pub table: Table,
}

/// A step of a SQL migration.
#[derive(Debug)]
pub enum SqlMigrationStep {
    CreateTable(CreateTable),
    AlterTable(AlterTable),
    DropTable(DropTable),
    DropTables(DropTables),
    RenameTable { name: String, new_name: String },
    RawSql { raw: String },
}

/// A SQL migration: the schema before and after it, and its steps.
#[derive(Debug)]
pub struct SqlMigration {
    pub before: SqlSchema,
    pub after: SqlSchema,
    pub original_steps: Vec<SqlMigrationStep>,
}

/// A warning about a migration.
#[derive(Debug)]
pub struct MigrationWarning {
    pub description: String,
}

/// An error found in a migration.
#[derive(Debug)]
pub struct MigrationError {
    pub tpe: String,
    pub description: String,
    pub field: Option<String>,
}

/// What the destructive change check found.
#[derive(Debug)]
pub struct DestructiveChangeDiagnostics {
    pub errors: Vec<MigrationError>,
    pub warnings: Vec<MigrationWarning>,
}

impl DestructiveChangeDiagnostics {
    /// No errors and no warnings.
    pub fn new() -> (res: DestructiveChangeDiagnostics)
        ensures
            res.errors@.len() == 0,
            res.warnings@.len() == 0,
    {
        DestructiveChangeDiagnostics { errors: Vec::new(), warnings: Vec::new() }
    }

    /// Appends a warning.
    pub fn add_warning(&mut self, warning: MigrationWarning)
        ensures
            final(self).warnings@ == old(self).warnings@.push(warning),
            final(self).errors@ == old(self).errors@,
    {
        self.warnings.push(warning);
    }

    /// Whether there is a warning.
    pub fn has_warnings(&self) -> (res: bool)
        ensures
            res == (self.warnings@.len() > 0),
    {
        self.warnings.len() > 0
    }
}

/// One check that the destructive change check runs.
#[derive(Debug)]
pub enum PlannedCheck {
    /// Count the rows of a dropped table.
    TableDrop { table: String },
    /// Count the non-null values of a dropped column of a table of the old schema.
    ColumnDrop { table: String, column: String },
    /// A column is dropped from a table that the old schema does not have.
    UnknownTable { table: String, column: String },
}

/// A count query: the rows of `schema.table`, or, with a column, the rows
/// where that column is not null.
#[derive(Debug)]
pub struct CountQuery {
    pub schema: String,
    pub table: String,
    pub non_null_column: Option<String>,
}

// ---------------------------------------------------------------------------
// The plan.

/// The checks for one change of `table_name`.
pub open spec fn change_plan(c: TableChange, table_name: String, before: SqlSchema) -> Seq<PlannedCheck> {
    match c {
        TableChange::DropColumn(dc) => match find_table(before.tables@, table_name@) {
            Some(t) => seq![PlannedCheck::ColumnDrop { table: t.name, column: dc.name }],
            None => seq![PlannedCheck::UnknownTable { table: table_name, column: dc.name }],
        },
        _ => Seq::empty(),
    }
}

/// The checks for the changes of `table_name`, in order.
pub open spec fn changes_plan(cs: Seq<TableChange>, table_name: String, before: SqlSchema) -> Seq<
    PlannedCheck,
>
    decreases cs.len(),
{
    if cs.len() == 0 {
        Seq::empty()
    } else {
        changes_plan(cs.drop_last(), table_name, before) + change_plan(cs.last(), table_name, before)
    }
}

/// The checks of one step: a column drop check for each dropped column of an
/// altered table, and a table drop check for each dropped table.
pub open spec fn step_plan(step: SqlMigrationStep, before: SqlSchema) -> Seq<PlannedCheck> {
    match step {
        SqlMigrationStep::AlterTable(at) => changes_plan(at.changes@, at.table.name, before),
        SqlMigrationStep::DropTable(dt) => seq![PlannedCheck::TableDrop { table: dt.name }],
        SqlMigrationStep::DropTables(dts) => dts.names@.map_values(
            |n: String| PlannedCheck::TableDrop { table: n },
        ),
        _ => Seq::empty(),
    }
}

/// The checks of a sequence of steps, in order.
pub open spec fn steps_plan(steps: Seq<SqlMigrationStep>, before: SqlSchema) -> Seq<PlannedCheck>
    decreases steps.len(),
{
    if steps.len() == 0 {
        Seq::empty()
    } else {
        steps_plan(steps.drop_last(), before) + step_plan(steps.last(), before)
    }
}

// ---------------------------------------------------------------------------
// Messages.

/// The error when a table count returns no row.
pub open spec fn no_row_message() -> Seq<char> {
    "No row was returned when checking for existing rows in dropped table."@
}

/// The error when a table count returns no integer count.
pub open spec fn no_count_message() -> Seq<char> {
    "No count was returned when checking for existing rows in dropped table."@
}

/// The error when a column count returns no integer count.
pub open spec fn column_shape_message() -> Seq<char> {
    "Unexpected result set shape when checking dropped columns."@
}

/// The error when a column is dropped from a table the old schema lacks.
pub open spec fn unknown_table_message(column: Seq<char>, table: Seq<char>) -> Seq<char> {
    "Internal Error: dropping column "@ + column + " on previously-unknown table "@ + table
}

/// The warning about dropping a table that holds rows.
pub open spec fn table_drop_warning(table: Seq<char>, rows: int) -> Seq<char> {
    "You are about to drop the table `"@ + table + "`, which is not empty ("@ + int_decimal(rows)
        + " rows)."@
}

/// The warning about dropping a column that holds non-null values.
pub open spec fn column_drop_warning(column: Seq<char>, table: Seq<char>, values: int) -> Seq<char> {
    "You are about to drop the column `"@ + column + "` on the `"@ + table
        + "` table, which still contains "@ + int_decimal(values) + " non-null values."@
}

/// `out` is what the check `item` makes of the query result `result`: the
/// query's error, an error about the result's shape, a warning when the count
/// is positive, or nothing.
pub open spec fn check_outcome(
    item: PlannedCheck,
    result: Result<ResultSet, SqlError>,
    out: Result<Option<MigrationWarning>, SqlError>,
) -> bool {
    match item {
        PlannedCheck::TableDrop { table } => match result {
            Err(e) => out == Err::<Option<MigrationWarning>, SqlError>(e),
            Ok(rs) => match rs.spec_first_count() {
                None => out matches Err(SqlError::Generic(m)) && m@ == no_row_message(),
                Some(None) => out matches Err(SqlError::Generic(m)) && m@ == no_count_message(),
                Some(Some(n)) => if n > 0 {
                    out matches Ok(Some(w)) && w.description@ == table_drop_warning(table@, n as int)
                } else {
                    out == Ok::<Option<MigrationWarning>, SqlError>(None)
                },
            },
        },
        PlannedCheck::ColumnDrop { table, column } => match result {
            Err(e) => out == Err::<Option<MigrationWarning>, SqlError>(e),
            Ok(rs) => match rs.spec_first_count() {
                Some(Some(n)) => if n > 0 {
                    out matches Ok(Some(w)) && w.description@ == column_drop_warning(
                        column@,
                        table@,
                        n as int,
                    )
                } else {
                    out == Ok::<Option<MigrationWarning>, SqlError>(None)
                },
                _ => out matches Err(SqlError::Generic(m)) && m@ == column_shape_message(),
            },
        },
        PlannedCheck::UnknownTable { .. } => false,
    }
}

/// Dropping a table warns exactly when its count query finds rows: when the
/// first cell of the count's first row is the integer `n`, the check gives a
/// warning if and only if `n` is positive, and that warning names the table
/// and the number of rows.
pub proof fn lemma_table_drop_warns_iff_rows(
    table: String,
    rs: ResultSet,
    n: i64,
    out: Result<Option<MigrationWarning>, SqlError>,
)
    requires
        rs.rows@.len() > 0,
        rs.rows@[0]@.len() > 0,
        rs.rows@[0]@[0] == DbValue::Integer(n),
        check_outcome(PlannedCheck::TableDrop { table }, Ok(rs), out),
    ensures
        out is Ok,
        (out matches Ok(Some(_))) <==> n > 0,
        out matches Ok(Some(w)) ==> w.description@ == "You are about to drop the table `"@ + table@
            + "`, which is not empty ("@ + int_decimal(n as int) + " rows)."@,
{
}

/// Dropping a column warns exactly when its count query finds non-null
/// values: when the first cell of the count's first row is the integer `n`,
/// the check gives a warning if and only if `n` is positive, and that warning
/// names the column, the table and the number of values.
pub proof fn lemma_column_drop_warns_iff_values(
    table: String,
    column: String,
    rs: ResultSet,
    n: i64,
    out: Result<Option<MigrationWarning>, SqlError>,
)
    requires
        rs.rows@.len() > 0,
        rs.rows@[0]@.len() > 0,
        rs.rows@[0]@[0] == DbValue::Integer(n),
        check_outcome(PlannedCheck::ColumnDrop { table, column }, Ok(rs), out),
    ensures
        out is Ok,
        (out matches Ok(Some(_))) <==> n > 0,
        out matches Ok(Some(w)) ==> w.description@ == "You are about to drop the column `"@
            + column@ + "` on the `"@ + table@ + "` table, which still contains "@ + int_decimal(
            n as int,
        ) + " non-null values."@,
{
}

fn string_of(s: &str) -> (res: String)
    ensures
        res@ == s@,
{
    String::from_str(s)
}

/// What the table drop check makes of the result of its count query.
pub fn check_table_drop(table_name: &String, result: Result<ResultSet, SqlError>) -> (res: Result<
    Option<MigrationWarning>,
    SqlError,
>)
    ensures
        check_outcome(PlannedCheck::TableDrop { table: *table_name }, result, res),
        match result {
            Ok(rs) => rs.rows@.len() > 0 && rs.rows@[0]@.len() > 0 && rs.rows@[0]@[0] is Integer ==> (
            res matches Ok(w) && (w is Some <==> rs.rows@[0]@[0]->Integer_0 > 0)),
            Err(_) => res is Err,
        },
{
    let result_set = match result {
        Ok(rs) => rs,
        Err(e) => {
            return Err(e);
        },
    };
    match result_set.first_count() {
        None => Err(
            SqlError::Generic(
                string_of("No row was returned when checking for existing rows in dropped table."),
            ),
        ),
        Some(None) => Err(
            SqlError::Generic(
                string_of("No count was returned when checking for existing rows in dropped table."),
            ),
        ),
        Some(Some(rows_count)) => {
            if rows_count > 0 {
                let mut d = string_of("You are about to drop the table `");
                d.append(table_name.as_str());
                d.append("`, which is not empty (");
                push_i64(&mut d, rows_count);
                d.append(" rows).");
                Ok(Some(MigrationWarning { description: d }))
            } else {
                Ok(None)
            }
        },
    }
}

/// What the column drop check makes of the result of its count query.
pub fn check_column_drop(
    column_name: &String,
    table_name: &String,
    result: Result<ResultSet, SqlError>,
) -> (res: Result<Option<MigrationWarning>, SqlError>)
    ensures
        check_outcome(
            PlannedCheck::ColumnDrop { table: *table_name, column: *column_name },
            result,
            res,
        ),
{
    let result_set = match result {
        Ok(rs) => rs,
        Err(e) => {
            return Err(e);
        },
    };
    match result_set.first_count() {
        Some(Some(values_count)) => {
            if values_count > 0 {
                let mut d = string_of("You are about to drop the column `");
                d.append(column_name.as_str());
                d.append("` on the `");
                d.append(table_name.as_str());
                d.append("` table, which still contains ");
                push_i64(&mut d, values_count);
                d.append(" non-null values.");
                Ok(Some(MigrationWarning { description: d }))
            } else {
                Ok(None)
            }
        },
        _ => Err(
            SqlError::Generic(string_of("Unexpected result set shape when checking dropped columns.")),
        ),
    }
}


// ---------------------------------------------------------------------------
// Planning.

/// Appends the checks for the changes of an altered table.
fn plan_changes(at: &AlterTable, before: &SqlSchema, plan: &mut Vec<PlannedCheck>)
    ensures
        final(plan)@ == old(plan)@ + changes_plan(at.changes@, at.table.name, *before),
{
    let ghost start = plan@;
    let n = at.changes.len();
    for j in 0..n
        invariant
            n == at.changes@.len(),
            plan@ == start + changes_plan(at.changes@.take(j as int), at.table.name, *before),
    {
        proof {
            assert(at.changes@.take(j + 1).drop_last() =~= at.changes@.take(j as int));
            assert(at.changes@.take(j + 1).last() == at.changes@[j as int]);
        }
        let ghost prev = plan@;
        match &at.changes[j] {
            TableChange::DropColumn(dc) => {
                match before.get_table(at.table.name.as_str()) {
                    Some(t) => {
                        plan.push(
                            PlannedCheck::ColumnDrop { table: t.name.clone(), column: dc.name.clone() },
                        );
                    },
                    None => {
                        plan.push(
                            PlannedCheck::UnknownTable {
                                table: at.table.name.clone(),
                                column: dc.name.clone(),
                            },
                        );
                    },
                }
            },
            _ => {},
        }
        proof {
            assert(plan@ =~= start + changes_plan(at.changes@.take(j as int), at.table.name, *before)
                + change_plan(at.changes@[j as int], at.table.name, *before));
        }
    }
    assert(at.changes@.take(n as int) =~= at.changes@);
}

/// The checks of a migration, in the order of its steps: for each altered
/// table each dropped column (against the table of the old schema), and each
/// dropped table.
pub fn plan_checks(migration: &SqlMigration) -> (res: Vec<PlannedCheck>)
    ensures
        res@ == steps_plan(migration.original_steps@, migration.before),
{
    let mut plan: Vec<PlannedCheck> = Vec::new();
    let steps = &migration.original_steps;
    let n = steps.len();
    for i in 0..n
        invariant
            n == steps@.len(),
            steps == &migration.original_steps,
            plan@ == steps_plan(steps@.take(i as int), migration.before),
    {
        proof {
            assert(steps@.take(i + 1).drop_last() =~= steps@.take(i as int));
            assert(steps@.take(i + 1).last() == steps@[i as int]);
        }
        let ghost prev = plan@;
        match &steps[i] {
            SqlMigrationStep::AlterTable(at) => {
                plan_changes(at, &migration.before, &mut plan);
            },
            SqlMigrationStep::DropTable(dt) => {
                plan.push(PlannedCheck::TableDrop { table: dt.name.clone() });
            },
            SqlMigrationStep::DropTables(dts) => {
                let m = dts.names.len();
                for k in 0..m
                    invariant
                        m == dts.names@.len(),
                        plan@ == prev + dts.names@.take(k as int).map_values(
                            |nm: String| PlannedCheck::TableDrop { table: nm },
                        ),
                {
                    plan.push(PlannedCheck::TableDrop { table: dts.names[k].clone() });
                    proof {
                        assert(dts.names@.take(k + 1).map_values(
                            |nm: String| PlannedCheck::TableDrop { table: nm },
                        ) =~= dts.names@.take(k as int).map_values(
                            |nm: String| PlannedCheck::TableDrop { table: nm },
                        ).push(PlannedCheck::TableDrop { table: dts.names@[k as int] }));
                    }
                }
                assert(dts.names@.take(m as int) =~= dts.names@);
            },
            _ => {},
        }
        proof {
            assert(plan@ =~= prev + step_plan(steps@[i as int], migration.before));
        }
    }
    assert(steps@.take(n as int) =~= steps@);
    plan
}


// ---------------------------------------------------------------------------
// Running the checks.

/// The destructive change checker of the SQL connector.
#[derive(Debug)]
pub struct SqlDestructiveChangesChecker {
    pub schema_name: String,
}

/// What a running check asks for next.
#[derive(Debug)]
pub enum CheckStep {
    /// Run this count query and hand its result to `record`.
    Query(CountQuery),
    /// The check failed with this error.
    Failed(SqlError),
    /// Every check ran; the diagnostics are complete.
    Done,
}

/// A destructive change check in progress: its plan, how many of its checks
/// have run, and the warnings found so far.
#[derive(Debug)]
pub struct DestructiveCheckRun {
    pub schema_name: String,
    pub plan: Vec<PlannedCheck>,
    pub position: usize,
    pub diagnostics: DestructiveChangeDiagnostics,
}

/// `step` is what `run` asks for next: done after its last check, a failure
/// on a column dropped from an unknown table, else the count query of its
/// next check.
pub open spec fn expected_step(run: DestructiveCheckRun, step: CheckStep) -> bool {
    if run.position >= run.plan@.len() {
        step is Done
    } else {
        match run.plan@[run.position as int] {
            PlannedCheck::TableDrop { table } => step == CheckStep::Query(
                CountQuery { schema: run.schema_name, table, non_null_column: None },
            ),
            PlannedCheck::ColumnDrop { table, column } => step == CheckStep::Query(
                CountQuery { schema: run.schema_name, table, non_null_column: Some(column) },
            ),
            PlannedCheck::UnknownTable { table, column } => step matches CheckStep::Failed(
                SqlError::Generic(m),
            ) && m@ == unknown_table_message(column@, table@),
        }
    }
}

impl DestructiveCheckRun {
    /// What the check asks for next.
    pub fn next_step(&self) -> (res: CheckStep)
        requires
            self.position <= self.plan@.len(),
        ensures
            expected_step(*self, res),
    {
        if self.position >= self.plan.len() {
            return CheckStep::Done;
        }
        match &self.plan[self.position] {
            PlannedCheck::TableDrop { table } => CheckStep::Query(
                CountQuery {
                    schema: self.schema_name.clone(),
                    table: table.clone(),
                    non_null_column: None,
                },
            ),
            PlannedCheck::ColumnDrop { table, column } => CheckStep::Query(
                CountQuery {
                    schema: self.schema_name.clone(),
                    table: table.clone(),
                    non_null_column: Some(column.clone()),
                },
            ),
            PlannedCheck::UnknownTable { table, column } => {
                let mut m = string_of("Internal Error: dropping column ");
                m.append(column.as_str());
                m.append(" on previously-unknown table ");
                m.append(table.as_str());
                CheckStep::Failed(SqlError::Generic(m))
            },
        }
    }

    /// Hands the result of the current count query to the check: it fails
    /// with the check's error and stays where it is, or records the check's
    /// warning (if any), moves on to the next check and says what that asks for.
    pub fn record(&mut self, query_result: Result<ResultSet, SqlError>) -> (res: CheckStep)
        requires
            old(self).position < old(self).plan@.len(),
            !(old(self).plan@[old(self).position as int] is UnknownTable),
        ensures
            final(self).position == old(self).position ==> {
                &&& *final(self) == *old(self)
                &&& res matches CheckStep::Failed(e) && check_outcome(
                    old(self).plan@[old(self).position as int],
                    query_result,
                    Err(e),
                )
            },
            final(self).position != old(self).position ==> {
                &&& final(self).schema_name == old(self).schema_name
                &&& final(self).plan == old(self).plan
                &&& final(self).position == old(self).position + 1
                &&& final(self).diagnostics.errors@ == old(self).diagnostics.errors@
                &&& {
                    ||| (final(self).diagnostics.warnings@ == old(self).diagnostics.warnings@
                        && check_outcome(
                        old(self).plan@[old(self).position as int],
                        query_result,
                        Ok(None),
                    ))
                    ||| (final(self).diagnostics.warnings@ == old(self).diagnostics.warnings@.push(
                        final(self).diagnostics.warnings@.last(),
                    ) && check_outcome(
                        old(self).plan@[old(self).position as int],
                        query_result,
                        Ok(Some(final(self).diagnostics.warnings@.last())),
                    ))
                }
                &&& expected_step(*final(self), res)
            },
    {
        let pos = self.position;
        let len = self.plan.len();
        let ghost item = self.plan@[pos as int];
        let outcome = match &self.plan[pos] {
            PlannedCheck::TableDrop { table } => {
                assert(item == PlannedCheck::TableDrop { table: *table });
                check_table_drop(table, query_result)
            },
            PlannedCheck::ColumnDrop { table, column } => {
                assert(item == PlannedCheck::ColumnDrop { table: *table, column: *column });
                check_column_drop(column, table, query_result)
            },
            PlannedCheck::UnknownTable { .. } => {
                proof {
                    assert(false);
                }
                Ok(None)
            },
        };
        match outcome {
            Err(e) => CheckStep::Failed(e),
            Ok(warning) => {
                match warning {
                    Some(w) => {
                        self.diagnostics.add_warning(w);
                    },
                    None => {},
                }
                self.position = pos + 1;
                self.next_step()
            },
        }
    }

    /// The diagnostics found.
    pub fn into_diagnostics(self) -> (res: DestructiveChangeDiagnostics)
        ensures
            res == self.diagnostics,
    {
        self.diagnostics
    }
}

impl SqlDestructiveChangesChecker {
    /// Starts the destructive change check of a migration: plans its checks
    /// and asks for the first.
    pub fn check(&self, migration: &SqlMigration) -> (res: (DestructiveCheckRun, CheckStep))
        ensures
            res.0.schema_name == self.schema_name,
            res.0.plan@ == steps_plan(migration.original_steps@, migration.before),
            res.0.position == 0,
            res.0.diagnostics.errors@.len() == 0,
            res.0.diagnostics.warnings@.len() == 0,
            expected_step(res.0, res.1),
    {
        let run = DestructiveCheckRun {
            schema_name: self.schema_name.clone(),
            plan: plan_checks(migration),
            position: 0,
            diagnostics: DestructiveChangeDiagnostics::new(),
        };
        let step = run.next_step();
        (run, step)
    }
}

} // verus!
