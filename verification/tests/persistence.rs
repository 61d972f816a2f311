use migration_engine::connector::SqlFamily;
use migration_engine::database::{DbValue, ResultSet};
use migration_engine::datetime::UtcDateTime;
use migration_engine::persistence::{
    parse_rows_new, try_parse_rows, InsertOutcome, InsertedId, MigrationRecord, MigrationUpdateParams,
    SqlMigrationPersistence,
};

fn persistence(family: SqlFamily) -> SqlMigrationPersistence {
    SqlMigrationPersistence { sql_family: family, schema_name: "app".to_string(), file_path: None }
}

const COLUMNS: [&str; 11] = [
    "revision",
    "name",
    "datamodel",
    "status",
    "applied",
    "rolled_back",
    "datamodel_steps",
    "database_migration",
    "errors",
    "started_at",
    "finished_at",
];

fn record() -> MigrationRecord {
    MigrationRecord {
        name: "init".to_string(),
        revision: 0,
        datamodel: "model User { id Int @id }".to_string(),
        status: "MigrationSuccess".to_string(),
        applied: 3,
        rolled_back: 0,
        datamodel_steps: "[]".to_string(),
        database_migration: "{}".to_string(),
        errors: vec!["first".to_string(), "say \"hi\"".to_string()],
        started_at: UtcDateTime { secs: 1_600_000_000, nanos: 5_000_000 },
        finished_at: None,
    }
}

fn result_set_of(values: Vec<(&'static str, DbValue)>, revision: i64) -> ResultSet {
    let mut row = vec![DbValue::Integer(revision)];
    row.extend(values.into_iter().map(|(_, v)| v));
    ResultSet { columns: COLUMNS.iter().map(|c| c.to_string()).collect(), rows: vec![row] }
}

#[test]
fn written_migration_reads_back() {
    for family in [SqlFamily::Sqlite, SqlFamily::Postgres, SqlFamily::Mysql] {
        let p = persistence(family);
        let values = p.insert_values(&record());
        assert_eq!(values.len(), 10);
        assert_eq!(values[0].0, "name");
        assert!(matches!(values[9], ("finished_at", DbValue::Null)));
        let rs = result_set_of(values, 42);
        let back = parse_rows_new(&rs);
        assert_eq!(back.len(), 1);
        let r = &back[0];
        let m = record();
        assert_eq!(r.name, m.name);
        assert_eq!(r.revision, 42);
        assert_eq!(r.datamodel, m.datamodel);
        assert_eq!(r.status, m.status);
        assert_eq!(r.applied, 3);
        assert_eq!(r.errors, m.errors);
        assert_eq!(r.started_at, m.started_at);
        assert_eq!(r.finished_at, None);
    }
}

#[test]
fn sqlite_stores_milliseconds() {
    let values = persistence(SqlFamily::Sqlite).insert_values(&record());
    assert!(matches!(values[8], ("started_at", DbValue::Integer(1_600_000_000_005))));
}

#[test]
fn unreadable_rows_are_refused() {
    let mut rs = result_set_of(persistence(SqlFamily::Postgres).insert_values(&record()), 1);
    assert!(try_parse_rows(&rs).is_some());
    rs.rows[0][1] = DbValue::Integer(5);
    assert!(try_parse_rows(&rs).is_none());
    let mut rs = result_set_of(persistence(SqlFamily::Postgres).insert_values(&record()), 1);
    rs.rows[0][9] = DbValue::Text("yesterday".to_string());
    assert!(try_parse_rows(&rs).is_none());
    let mut rs = result_set_of(persistence(SqlFamily::Postgres).insert_values(&record()), 1);
    rs.columns[3] = "state".to_string();
    assert!(try_parse_rows(&rs).is_none());
}

#[test]
fn finished_dates_are_read() {
    let mut rs = result_set_of(persistence(SqlFamily::Sqlite).insert_values(&record()), 1);
    rs.rows[0][10] = DbValue::Integer(2_500);
    let back = parse_rows_new(&rs);
    assert_eq!(back[0].finished_at, Some(UtcDateTime { secs: 2, nanos: 500_000_000 }));
}

#[test]
fn selects() {
    let p = persistence(SqlFamily::Postgres);
    let q = p.last_query();
    assert!(q.descending);
    assert!(matches!(&q.condition, Some(("status", DbValue::Text(s))) if s == "MigrationSuccess"));
    assert_eq!(q.table.schema, Some("app".to_string()));
    let q = p.by_name_query("init");
    assert_eq!(q.table.schema, Some("app".to_string()));
    assert_eq!(persistence(SqlFamily::Sqlite).load_all_query().table.schema, None);
    assert!(matches!(&q.condition, Some(("name", DbValue::Text(s))) if s == "init"));
    let q = p.load_all_query();
    assert!(q.condition.is_none() && !q.descending);
}

#[test]
fn update_sets_new_values() {
    let p = persistence(SqlFamily::Sqlite);
    let params = MigrationUpdateParams {
        name: "init".to_string(),
        new_name: "init-2".to_string(),
        revision: 7,
        status: "MigrationFailure".to_string(),
        applied: 1,
        rolled_back: 2,
        errors: vec!["boom".to_string()],
        finished_at: Some(UtcDateTime { secs: 10, nanos: 0 }),
    };
    let u = p.update_query(&params);
    assert_eq!(u.name, "init");
    assert_eq!(u.table.schema, None);
    assert_eq!(u.table.name, "_Migration");
    let on_mysql = persistence(SqlFamily::Mysql).update_query(&params);
    assert_eq!(on_mysql.table.schema, Some("app".to_string()));
    assert!(matches!(u.revision, DbValue::Integer(7)));
    assert_eq!(u.assignments.len(), 6);
    assert!(matches!(&u.assignments[0], ("name", DbValue::Text(s)) if s == "init-2"));
    assert!(matches!(&u.assignments[4], ("errors", DbValue::Text(s)) if s == "[\"boom\"]"));
    assert!(matches!(u.assignments[5], ("finished_at", DbValue::Integer(10_000))));
}

#[test]
fn errors_are_stored_as_json_and_read_back() {
    let values = persistence(SqlFamily::Mysql).insert_values(&record());
    assert!(matches!(&values[7], ("errors", DbValue::Text(s)) if s == "[\"first\",\"say \\\"hi\\\"\"]"));
    let mut rs = result_set_of(values, 3);
    rs.rows[0][8] = DbValue::Text("[]".to_string());
    assert!(parse_rows_new(&rs)[0].errors.is_empty());
    rs.rows[0][8] = DbValue::Text("not json".to_string());
    assert!(try_parse_rows(&rs).is_none());
    rs.rows[0][8] = DbValue::Text("[1, 2]".to_string());
    assert!(try_parse_rows(&rs).is_none());
}

#[test]
fn created_revision_comes_from_the_insert() {
    let sqlite = persistence(SqlFamily::Sqlite);
    assert!(!sqlite.insert_returns_revision());
    assert_eq!(sqlite.created_revision(0, &InsertOutcome::InsertedId(Some(InsertedId::Int(17)))), 17);
    let postgres = persistence(SqlFamily::Postgres);
    assert!(postgres.insert_returns_revision());
    let returned = ResultSet { columns: vec!["revision".to_string()], rows: vec![vec![DbValue::Integer(23)]] };
    assert_eq!(postgres.created_revision(0, &InsertOutcome::Returned(returned)), 23);
    let none = ResultSet { columns: vec!["revision".to_string()], rows: vec![] };
    assert_eq!(postgres.created_revision(5, &InsertOutcome::Returned(none)), 5);
}

#[test]
fn control_characters_in_errors_are_escaped() {
    let mut m = record();
    m.errors = vec!["a\tb\u{1}".to_string(), "c\\d".to_string()];
    let values = persistence(SqlFamily::Postgres).insert_values(&m);
    assert!(matches!(&values[7], ("errors", DbValue::Text(s)) if s == "[\"a\\tb\\u0001\",\"c\\\\d\"]"));
    let back = parse_rows_new(&result_set_of(values, 1));
    assert_eq!(back[0].errors, m.errors);
}
