//! The SQL migration connector: the SQL families it speaks, how its parts are
//! put together, and the statements it issues to create a database and to
//! prepare a schema.

use vstd::prelude::*;
use vstd::string::*;
use crate::destructive::SqlDestructiveChangesChecker;
use crate::database::SqlError;
use crate::persistence::{family_column_types, migration_columns, MigrationTableSetup, SqlMigrationPersistence, TABLE_NAME};
use crate::text::str_eq;

verus! {

/// The SQL databases the connector supports.
#[derive(Debug, Clone, Copy, PartialEq, Eq, Structural)]
pub enum SqlFamily {
    Sqlite,
    Postgres,
    Mysql,
}

impl SqlFamily {
    /// The connector type of the family, as datasources name it.
    pub open spec fn spec_connector_type(self) -> Seq<char> {
        match self {
            SqlFamily::Postgres => "postgresql"@,
            SqlFamily::Mysql => "mysql"@,
            SqlFamily::Sqlite => "sqlite"@,
        }
    }

    /// The family whose connector type is `s`, if any.
    pub open spec fn spec_from_connector_type(s: Seq<char>) -> Option<SqlFamily> {
        if s == "sqlite"@ {
            Some(SqlFamily::Sqlite)
        } else if s == "postgresql"@ {
            Some(SqlFamily::Postgres)
        } else if s == "mysql"@ {
            Some(SqlFamily::Mysql)
        } else {
            None
        }
    }

    /// The connector type of the family.
    pub fn connector_type_string(&self) -> (res: &'static str)
        ensures
            res@ == self.spec_connector_type(),
    {
        proof {
            reveal_strlit("postgresql");
            reveal_strlit("mysql");
            reveal_strlit("sqlite");
        }
        match self {
            SqlFamily::Postgres => "postgresql",
            SqlFamily::Mysql => "mysql",
            SqlFamily::Sqlite => "sqlite",
        }
    }

    /// The family whose connector type is `s`, if any.
    pub fn from_connector_type(s: &str) -> (res: Option<SqlFamily>)
        ensures
            res == SqlFamily::spec_from_connector_type(s@),
    {
        if str_eq(s, "sqlite") {
            Some(SqlFamily::Sqlite)
        } else if str_eq(s, "postgresql") {
            Some(SqlFamily::Postgres)
        } else if str_eq(s, "mysql") {
            Some(SqlFamily::Mysql)
        } else {
            None
        }
    }
}

/// Each family has its own connector type, and reading a family's connector
/// type gives the family back.
pub proof fn lemma_connector_type_round_trip(f: SqlFamily, g: SqlFamily)
    ensures
        SqlFamily::spec_from_connector_type(f.spec_connector_type()) == Some(f),
        f != g ==> f.spec_connector_type() != g.spec_connector_type(),
{
    reveal_strlit("postgresql");
    reveal_strlit("mysql");
    reveal_strlit("sqlite");
    assert("mysql"@[0] != "sqlite"@[0]);
    assert("postgresql"@.len() != "sqlite"@.len());
    assert("postgresql"@.len() != "mysql"@.len());
}

/// The step that infers database migrations for a family and schema.
#[derive(Debug)]
pub struct SqlDatabaseMigrationInferrer {
    pub sql_family: SqlFamily,
    pub schema_name: String,
}

/// The step that applies database migrations for a family and schema.
#[derive(Debug)]
pub struct SqlDatabaseStepApplier {
    pub sql_family: SqlFamily,
    pub schema_name: String,
}

/// The SQL migration connector: its database URL, its SQL family and schema,
/// the database file (SQLite), and its parts.
#[derive(Debug)]
pub struct SqlMigrationConnector {
    pub url: String,
    pub file_path: Option<String>,
    pub sql_family: SqlFamily,
    pub schema_name: String,
    pub migration_persistence: SqlMigrationPersistence,
    pub database_migration_inferrer: SqlDatabaseMigrationInferrer,
    pub database_migration_step_applier: SqlDatabaseStepApplier,
    pub destructive_changes_checker: SqlDestructiveChangesChecker,
}

impl SqlMigrationConnector {
    /// Every part of the connector works on the connector's family, schema
    /// and database file.
    pub open spec fn parts_agree(self) -> bool {
        &&& self.migration_persistence.sql_family == self.sql_family
        &&& self.migration_persistence.schema_name == self.schema_name
        &&& self.migration_persistence.file_path == self.file_path
        &&& self.database_migration_inferrer.sql_family == self.sql_family
        &&& self.database_migration_inferrer.schema_name == self.schema_name
        &&& self.database_migration_step_applier.sql_family == self.sql_family
        &&& self.database_migration_step_applier.schema_name == self.schema_name
        &&& self.destructive_changes_checker.schema_name == self.schema_name
    }

    /// A connector for the database at `url`, of the given family, working
    /// in `schema_name`; all of its parts share that family and schema.
    pub fn create_connector(
        url: &str,
        sql_family: SqlFamily,
        schema_name: String,
        file_path: Option<String>,
    ) -> (res: SqlMigrationConnector)
        ensures
            res.url@ == url@,
            res.sql_family == sql_family,
            res.schema_name == schema_name,
            res.file_path == file_path,
            res.parts_agree(),
    {
        let migration_persistence = SqlMigrationPersistence {
            sql_family,
            schema_name: schema_name.clone(),
            file_path: file_path.clone(),
        };
        let database_migration_inferrer = SqlDatabaseMigrationInferrer {
            sql_family,
            schema_name: schema_name.clone(),
        };
        let database_migration_step_applier = SqlDatabaseStepApplier {
            sql_family,
            schema_name: schema_name.clone(),
        };
        let destructive_changes_checker = SqlDestructiveChangesChecker {
            schema_name: schema_name.clone(),
        };
        SqlMigrationConnector {
            url: String::from_str(url),
            file_path,
            sql_family,
            schema_name,
            migration_persistence,
            database_migration_inferrer,
            database_migration_step_applier,
            destructive_changes_checker,
        }
    }

    /// The connector's migration record.
    pub fn migration_persistence(&self) -> (res: &SqlMigrationPersistence)
        ensures
            *res == self.migration_persistence,
    {
        &self.migration_persistence
    }

    /// The connector's migration inferrer.
    pub fn database_migration_inferrer(&self) -> (res: &SqlDatabaseMigrationInferrer)
        ensures
            *res == self.database_migration_inferrer,
    {
        &self.database_migration_inferrer
    }

    /// The connector's migration step applier.
    pub fn database_migration_step_applier(&self) -> (res: &SqlDatabaseStepApplier)
        ensures
            *res == self.database_migration_step_applier,
    {
        &self.database_migration_step_applier
    }

    /// The connector's destructive change checker.
    pub fn destructive_changes_checker(&self) -> (res: &SqlDestructiveChangesChecker)
        ensures
            *res == self.destructive_changes_checker,
    {
        &self.destructive_changes_checker
    }

    /// The connector type of the connector's family.
    pub fn connector_type(&self) -> (res: &'static str)
        ensures
            res@ == self.sql_family.spec_connector_type(),
    {
        self.sql_family.connector_type_string()
    }
}

/// The statement that creates database `db_name`: a quoted `CREATE
/// DATABASE` on PostgreSQL and MySQL; none on SQLite, where a database is a file.
pub open spec fn create_database_spec(family: SqlFamily, db_name: Seq<char>) -> Option<Seq<char>> {
    match family {
        SqlFamily::Postgres => Some("CREATE DATABASE \""@ + db_name + "\""@),
        SqlFamily::Sqlite => None,
        SqlFamily::Mysql => Some("CREATE DATABASE `"@ + db_name + "`"@),
    }
}

/// What initializing the connector does before it initializes the migration table.
#[derive(Debug)]
pub enum InitializeAction {
    /// Create the directories that hold the database file at this path.
    EnsureParentDirectory(String),
    /// Run this statement.
    RunSql(String),
    /// Nothing.
    Nothing,
}

/// The schema creation statement of PostgreSQL and MySQL.
pub open spec fn create_schema_spec(family: SqlFamily, schema: Seq<char>) -> Seq<char> {
    match family {
        SqlFamily::Mysql => "CREATE SCHEMA IF NOT EXISTS `"@ + schema
            + "` DEFAULT CHARACTER SET latin1;"@,
        _ => "CREATE SCHEMA IF NOT EXISTS \""@ + schema + "\";"@,
    }
}

impl SqlMigrationConnector {
    /// The statement that creates database `db_name`, if the family needs one.
    pub fn create_database_sql(&self, db_name: &str) -> (res: Option<String>)
        ensures
            match res {
                Some(s) => create_database_spec(self.sql_family, db_name@) == Some(s@),
                None => create_database_spec(self.sql_family, db_name@) is None,
            },
    {
        match self.sql_family {
            SqlFamily::Postgres => {
                let mut s = String::from_str("CREATE DATABASE \"");
                s.append(db_name);
                s.append("\"");
                Some(s)
            },
            SqlFamily::Sqlite => None,
            SqlFamily::Mysql => {
                let mut s = String::from_str("CREATE DATABASE `");
                s.append(db_name);
                s.append("`");
                Some(s)
            },
        }
    }

    /// What initializing the connector does first: on SQLite, create the
    /// directories of the database file (if there is a file); elsewhere,
    /// create the schema unless it exists.
    pub fn initialize_action(&self) -> (res: InitializeAction)
        ensures
            match self.sql_family {
                SqlFamily::Sqlite => match self.file_path {
                    Some(p) => res == InitializeAction::EnsureParentDirectory(p),
                    None => res is Nothing,
                },
                _ => res matches InitializeAction::RunSql(s) && s@ == create_schema_spec(
                    self.sql_family,
                    self.schema_name@,
                ),
            },
    {
        match self.sql_family {
            SqlFamily::Sqlite => match &self.file_path {
                Some(p) => InitializeAction::EnsureParentDirectory(p.clone()),
                None => InitializeAction::Nothing,
            },
            SqlFamily::Postgres => {
                let mut s = String::from_str("CREATE SCHEMA IF NOT EXISTS \"");
                s.append(self.schema_name.as_str());
                s.append("\";");
                InitializeAction::RunSql(s)
            },
            SqlFamily::Mysql => {
                let mut s = String::from_str("CREATE SCHEMA IF NOT EXISTS `");
                s.append(self.schema_name.as_str());
                s.append("` DEFAULT CHARACTER SET latin1;");
                InitializeAction::RunSql(s)
            },
        }
    }
}


/// Initializing the connector: first `first`, then, once that succeeded,
/// creating the migration table as `migration_table` describes (a failure of
/// that last statement is ignored).
#[derive(Debug)]
pub struct InitializePlan {
    pub first: InitializeAction,
    pub migration_table: MigrationTableSetup,
}

impl InitializePlan {
    /// The step after the first action: the migration table to create when
    /// the first action succeeded, else the first action's error (and the
    /// table is not created).
    pub fn after_first(self, first_result: Result<(), SqlError>) -> (res: Result<
        MigrationTableSetup,
        SqlError,
    >)
        ensures
            match first_result {
                Ok(_) => res == Ok::<MigrationTableSetup, SqlError>(self.migration_table),
                Err(e) => res == Err::<MigrationTableSetup, SqlError>(e),
            },
    {
        match first_result {
            Ok(_) => Ok(self.migration_table),
            Err(e) => Err(e),
        }
    }
}

impl SqlMigrationConnector {
    /// How initializing the connector goes: the first action (see
    /// `initialize_action`), then the migration table of the connector's
    /// migration persistence (see `SqlMigrationPersistence::init_setup`).
    pub fn initialize_plan(&self) -> (res: InitializePlan)
        ensures
            match self.sql_family {
                SqlFamily::Sqlite => match self.file_path {
                    Some(p) => res.first == InitializeAction::EnsureParentDirectory(p),
                    None => res.first is Nothing,
                },
                _ => res.first matches InitializeAction::RunSql(s) && s@ == create_schema_spec(
                    self.sql_family,
                    self.schema_name@,
                ),
            },
            res.migration_table.schema == self.migration_persistence.schema_name,
            res.migration_table.table == TABLE_NAME,
            res.migration_table.variant == self.migration_persistence.sql_family,
            res.migration_table.if_not_exists == (self.migration_persistence.sql_family
                == SqlFamily::Sqlite),
            res.migration_table.columns@ == migration_columns(
                family_column_types(self.migration_persistence.sql_family).0,
                family_column_types(self.migration_persistence.sql_family).1,
            ),
    {
        let first = self.initialize_action();
        let migration_table = self.migration_persistence.init_setup();
        InitializePlan { first, migration_table }
    }
}

} // verus!
