use migration_engine::connector::{InitializeAction, SqlFamily, SqlMigrationConnector};
use migration_engine::database::{DbValue, SqlError};
use migration_engine::datetime::UtcDateTime;
use migration_engine::persistence::{
    convert_parameterized_date_value, timestamp_to_datetime, try_convert_parameterized_date_value,
    try_timestamp_to_datetime, ColumnType, SqlMigrationPersistence,
};

fn connector(family: SqlFamily, file: Option<&str>) -> SqlMigrationConnector {
    SqlMigrationConnector::create_connector(
        "db://somewhere",
        family,
        "app".to_string(),
        file.map(|f| f.to_string()),
    )
}

#[test]
fn connector_parts_share_family_and_schema() {
    let c = connector(SqlFamily::Postgres, None);
    assert_eq!(c.url, "db://somewhere");
    assert_eq!(c.migration_persistence.schema_name, "app");
    assert_eq!(c.migration_persistence.sql_family, SqlFamily::Postgres);
    assert_eq!(c.database_migration_inferrer.schema_name, "app");
    assert_eq!(c.database_migration_step_applier.sql_family, SqlFamily::Postgres);
    assert_eq!(c.destructive_changes_checker.schema_name, "app");
    assert_eq!(c.connector_type(), "postgresql");
}

#[test]
fn connector_types_round_trip() {
    for f in [SqlFamily::Sqlite, SqlFamily::Postgres, SqlFamily::Mysql] {
        assert_eq!(SqlFamily::from_connector_type(f.connector_type_string()), Some(f));
    }
    assert_eq!(SqlFamily::Mysql.connector_type_string(), "mysql");
    assert_eq!(SqlFamily::from_connector_type("mongodb"), None);
}

#[test]
fn create_database_statements() {
    assert_eq!(
        connector(SqlFamily::Postgres, None).create_database_sql("shop"),
        Some("CREATE DATABASE \"shop\"".to_string())
    );
    assert_eq!(connector(SqlFamily::Mysql, None).create_database_sql("shop"), Some("CREATE DATABASE `shop`".to_string()));
    assert_eq!(connector(SqlFamily::Sqlite, None).create_database_sql("shop"), None);
}

#[test]
fn initialize_actions() {
    match connector(SqlFamily::Postgres, None).initialize_action() {
        InitializeAction::RunSql(s) => assert_eq!(s, "CREATE SCHEMA IF NOT EXISTS \"app\";"),
        other => panic!("unexpected {:?}", other),
    }
    match connector(SqlFamily::Mysql, None).initialize_action() {
        InitializeAction::RunSql(s) => {
            assert_eq!(s, "CREATE SCHEMA IF NOT EXISTS `app` DEFAULT CHARACTER SET latin1;")
        }
        other => panic!("unexpected {:?}", other),
    }
    match connector(SqlFamily::Sqlite, Some("/tmp/db/dev.db")).initialize_action() {
        InitializeAction::EnsureParentDirectory(p) => assert_eq!(p, "/tmp/db/dev.db"),
        other => panic!("unexpected {:?}", other),
    }
    assert!(matches!(connector(SqlFamily::Sqlite, None).initialize_action(), InitializeAction::Nothing));
}

#[test]
fn initialize_plan_creates_migration_table_after_first_action() {
    let plan = connector(SqlFamily::Postgres, None).initialize_plan();
    match &plan.first {
        InitializeAction::RunSql(s) => assert_eq!(s, "CREATE SCHEMA IF NOT EXISTS \"app\";"),
        other => panic!("unexpected {:?}", other),
    }
    assert_eq!(plan.migration_table.table, "_Migration");
    assert_eq!(plan.migration_table.schema, "app");
    assert!(!plan.migration_table.if_not_exists);
    let table = plan.after_first(Ok(())).unwrap();
    assert_eq!(table.columns.len(), 11);
    assert_eq!(table.columns[0].name, "revision");

    let sqlite = connector(SqlFamily::Sqlite, Some("/tmp/db/dev.db")).initialize_plan();
    assert!(sqlite.migration_table.if_not_exists);

    let failing = connector(SqlFamily::Mysql, None).initialize_plan();
    match failing.after_first(Err(SqlError::QueryError("denied".to_string()))) {
        Err(SqlError::QueryError(m)) => assert_eq!(m, "denied"),
        other => panic!("unexpected {:?}", other),
    }
}

fn persistence(family: SqlFamily) -> SqlMigrationPersistence {
    SqlMigrationPersistence { sql_family: family, schema_name: "app".to_string(), file_path: Some("dev.db".to_string()) }
}

#[test]
fn migration_table_names() {
    let t = persistence(SqlFamily::Sqlite).table();
    assert_eq!(t.schema, None);
    assert_eq!(t.name, "_Migration");
    let t = persistence(SqlFamily::Mysql).table();
    assert_eq!(t.schema, Some("app".to_string()));
}

#[test]
fn migration_table_setup_per_family() {
    let s = persistence(SqlFamily::Sqlite).init_setup();
    assert!(s.if_not_exists);
    assert_eq!(s.columns.len(), 11);
    assert_eq!(s.columns[0].name, "revision");
    assert!(matches!(s.columns[0].column_type, ColumnType::Primary));
    assert!(matches!(s.columns[2].column_type, ColumnType::Custom("TEXT")));
    assert!(matches!(s.columns[9].column_type, ColumnType::Date));
    assert!(s.columns[10].nullable && !s.columns[9].nullable);
    let s = persistence(SqlFamily::Mysql).init_setup();
    assert!(!s.if_not_exists);
    assert!(matches!(s.columns[8].column_type, ColumnType::Custom("LONGTEXT")));
    assert!(matches!(s.columns[10].column_type, ColumnType::Custom("datetime(3)")));
    let s = persistence(SqlFamily::Postgres).init_setup();
    assert!(matches!(s.columns[9].column_type, ColumnType::Custom("timestamp(3)")));
}

#[test]
fn reset_plans() {
    let p = persistence(SqlFamily::Postgres).reset_plan();
    assert_eq!(p.statements, vec![
        "DELETE FROM \"app\".\"_Migration\";".to_string(),
        "DROP SCHEMA \"app\" CASCADE;".to_string(),
    ]);
    assert_eq!(p.remove_file, None);
    let p = persistence(SqlFamily::Mysql).reset_plan();
    assert_eq!(p.statements[1], "DROP SCHEMA `app`;");
    let p = persistence(SqlFamily::Sqlite).reset_plan();
    assert_eq!(p.statements.len(), 1);
    assert_eq!(p.remove_file, Some("dev.db".to_string()));
}

#[test]
fn datetimes_are_stored_per_family() {
    let dt = UtcDateTime { secs: 1_561_975_200, nanos: 250_000_000 };
    assert!(matches!(persistence(SqlFamily::Sqlite).convert_datetime(dt), DbValue::Integer(1_561_975_200_250)));
    assert!(matches!(persistence(SqlFamily::Postgres).convert_datetime(dt), DbValue::DateTime(d) if d == dt));
}

#[test]
fn timestamps_read_back() {
    assert_eq!(timestamp_to_datetime(1_561_975_200_250), UtcDateTime { secs: 1_561_975_200, nanos: 250_000_000 });
    assert_eq!(timestamp_to_datetime(-2000), UtcDateTime { secs: -2, nanos: 0 });
    assert_eq!(try_timestamp_to_datetime(-1500), None);
    assert_eq!(try_timestamp_to_datetime(i64::MAX), None);
    let dt = UtcDateTime { secs: 7, nanos: 0 };
    assert_eq!(convert_parameterized_date_value(&DbValue::DateTime(dt)), dt);
    assert_eq!(convert_parameterized_date_value(&DbValue::Integer(7000)), dt);
    assert_eq!(try_convert_parameterized_date_value(&DbValue::Text("x".to_string())), None);
}

#[test]
fn sqlite_datetime_round_trip() {
    let dt = UtcDateTime { secs: 1_600_000_000, nanos: 123_000_000 };
    match persistence(SqlFamily::Sqlite).convert_datetime(dt) {
        v @ DbValue::Integer(_) => assert_eq!(convert_parameterized_date_value(&v), dt),
        _ => panic!("expected milliseconds"),
    }
}

#[test]
fn connector_getters() {
    let c = connector(SqlFamily::Mysql, Some("x"));
    assert_eq!(c.migration_persistence().schema_name, "app");
    assert_eq!(c.migration_persistence().file_path, Some("x".to_string()));
    assert_eq!(c.database_migration_inferrer().sql_family, SqlFamily::Mysql);
    assert_eq!(c.database_migration_step_applier().schema_name, "app");
    assert_eq!(c.destructive_changes_checker().schema_name, "app");
}
