use migration_engine::database::{DbValue, ResultSet, SqlError};
use migration_engine::destructive::{
    check_column_drop, check_table_drop, AlterTable, CheckStep, DropColumn, DropTable, DropTables,
    PlannedCheck, SqlDestructiveChangesChecker, SqlMigration, SqlMigrationStep, SqlSchema, Table,
    TableChange,
};

fn count(n: i64) -> Result<ResultSet, SqlError> {
    Ok(ResultSet { columns: vec!["count".to_string()], rows: vec![vec![DbValue::Integer(n)]] })
}

fn table(name: &str) -> Table {
    Table { name: name.to_string() }
}

fn migration() -> SqlMigration {
    SqlMigration {
        before: SqlSchema { tables: vec![table("users"), table("posts")] },
        after: SqlSchema { tables: vec![table("users")] },
        original_steps: vec![
            SqlMigrationStep::AlterTable(AlterTable {
                table: table("users"),
                changes: vec![
                    TableChange::AddColumn { name: "age".to_string() },
                    TableChange::DropColumn(DropColumn { name: "nickname".to_string() }),
                ],
            }),
            SqlMigrationStep::RawSql { raw: "SELECT 1".to_string() },
            SqlMigrationStep::DropTable(DropTable { name: "posts".to_string() }),
            SqlMigrationStep::DropTables(DropTables { names: vec!["a".to_string(), "b".to_string()] }),
        ],
    }
}

#[test]
fn table_drop_warns_only_on_rows() {
    let t = "posts".to_string();
    let w = check_table_drop(&t, count(3)).unwrap().unwrap();
    assert_eq!(w.description, "You are about to drop the table `posts`, which is not empty (3 rows).");
    assert!(check_table_drop(&t, count(0)).unwrap().is_none());
    match check_table_drop(&t, Ok(ResultSet { columns: vec!["count".to_string()], rows: vec![] })) {
        Err(SqlError::Generic(m)) => {
            assert_eq!(m, "No row was returned when checking for existing rows in dropped table.")
        }
        _ => panic!("expected an error"),
    }
    match check_table_drop(&t, Ok(ResultSet { columns: vec!["count".to_string()], rows: vec![vec![DbValue::Null]] })) {
        Err(SqlError::Generic(m)) => {
            assert_eq!(m, "No count was returned when checking for existing rows in dropped table.")
        }
        _ => panic!("expected an error"),
    }
    match check_table_drop(&t, Err(SqlError::QueryError("boom".to_string()))) {
        Err(SqlError::QueryError(m)) => assert_eq!(m, "boom"),
        _ => panic!("expected the query error"),
    }
}

#[test]
fn column_drop_warns_only_on_values() {
    let c = "nickname".to_string();
    let t = "users".to_string();
    let w = check_column_drop(&c, &t, count(12345)).unwrap().unwrap();
    assert_eq!(
        w.description,
        "You are about to drop the column `nickname` on the `users` table, which still contains 12345 non-null values."
    );
    assert!(check_column_drop(&c, &t, count(0)).unwrap().is_none());
    match check_column_drop(&c, &t, Ok(ResultSet { columns: vec!["count".to_string()], rows: vec![vec![]] })) {
        Err(SqlError::Generic(m)) => assert_eq!(m, "Unexpected result set shape when checking dropped columns."),
        _ => panic!("expected an error"),
    }
}

#[test]
fn check_runs_planned_queries_in_order() {
    let checker = SqlDestructiveChangesChecker { schema_name: "app".to_string() };
    let m = migration();
    let (mut run, mut step) = checker.check(&m);
    assert_eq!(run.plan.len(), 4);
    assert!(matches!(&run.plan[0], PlannedCheck::ColumnDrop { table, column } if table == "users" && column == "nickname"));
    let mut queries = vec![];
    let answers = vec![count(2), count(0), count(5), count(0)];
    let mut answers = answers.into_iter();
    loop {
        match step {
            CheckStep::Query(q) => {
                queries.push((q.table.clone(), q.non_null_column.clone()));
                assert_eq!(q.schema, "app");
                step = run.record(answers.next().unwrap());
            }
            CheckStep::Failed(e) => panic!("unexpected failure {:?}", e),
            CheckStep::Done => break,
        }
    }
    assert_eq!(
        queries,
        vec![
            ("users".to_string(), Some("nickname".to_string())),
            ("posts".to_string(), None),
            ("a".to_string(), None),
            ("b".to_string(), None),
        ]
    );
    let diagnostics = run.into_diagnostics();
    assert!(diagnostics.has_warnings());
    assert_eq!(diagnostics.warnings.len(), 2);
    assert_eq!(
        diagnostics.warnings[1].description,
        "You are about to drop the table `a`, which is not empty (5 rows)."
    );
}

#[test]
fn check_stops_at_first_error() {
    let checker = SqlDestructiveChangesChecker { schema_name: "app".to_string() };
    let m = migration();
    let (mut run, step) = checker.check(&m);
    assert!(matches!(step, CheckStep::Query(_)));
    match run.record(Err(SqlError::QueryError("gone".to_string()))) {
        CheckStep::Failed(SqlError::QueryError(m)) => assert_eq!(m, "gone"),
        _ => panic!("expected the query error"),
    }
    assert_eq!(run.position, 0);
}

#[test]
fn column_drop_on_unknown_table_fails() {
    let checker = SqlDestructiveChangesChecker { schema_name: "app".to_string() };
    let m = SqlMigration {
        before: SqlSchema { tables: vec![] },
        after: SqlSchema { tables: vec![] },
        original_steps: vec![SqlMigrationStep::AlterTable(AlterTable {
            table: table("ghost"),
            changes: vec![TableChange::DropColumn(DropColumn { name: "c".to_string() })],
        })],
    };
    let (_run, step) = checker.check(&m);
    match step {
        CheckStep::Failed(SqlError::Generic(m)) => {
            assert_eq!(m, "Internal Error: dropping column c on previously-unknown table ghost")
        }
        _ => panic!("expected a failure"),
    }
}

#[test]
fn no_checks_means_done() {
    let checker = SqlDestructiveChangesChecker { schema_name: "app".to_string() };
    let m = SqlMigration {
        before: SqlSchema { tables: vec![] },
        after: SqlSchema { tables: vec![] },
        original_steps: vec![],
    };
    let (run, step) = checker.check(&m);
    assert!(matches!(step, CheckStep::Done));
    assert!(!run.into_diagnostics().has_warnings());
}

#[test]
fn schema_finds_first_table_by_name() {
    let s = SqlSchema { tables: vec![table("a"), table("b")] };
    assert_eq!(s.get_table("b").unwrap().name, "b");
    assert!(s.get_table("c").is_none());
}
