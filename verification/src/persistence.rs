//! The migration table: where the SQL connector records the migrations it
//! applied, how it lays out, names and clears that table, and how it stores
//! and reads back points in time.

use vstd::prelude::*;
use vstd::string::*;
use crate::connector::SqlFamily;
use crate::database::{column_position, lemma_column_position_at, DbValue, ResultSet};
use crate::datetime::{chrono_accepts_timestamp, utc_from_timestamp, UtcDateTime};
use crate::template::string_views;

verus! {

/// The name of the migration table.
pub const TABLE_NAME: &'static str = "_Migration";

/// The columns of the migration table.
pub const NAME_COLUMN: &'static str = "name";

pub const REVISION_COLUMN: &'static str = "revision";

pub const DATAMODEL_COLUMN: &'static str = "datamodel";

pub const STATUS_COLUMN: &'static str = "status";

pub const APPLIED_COLUMN: &'static str = "applied";

pub const ROLLED_BACK_COLUMN: &'static str = "rolled_back";

pub const DATAMODEL_STEPS_COLUMN: &'static str = "datamodel_steps";

pub const DATABASE_MIGRATION_COLUMN: &'static str = "database_migration";

pub const ERRORS_COLUMN: &'static str = "errors";

pub const STARTED_AT_COLUMN: &'static str = "started_at";

pub const FINISHED_AT_COLUMN: &'static str = "finished_at";

/// The SQL connector's record of migrations, kept in the `_Migration`
/// table of its schema.
#[derive(Debug)]
pub struct SqlMigrationPersistence {
    pub sql_family: SqlFamily,
    pub schema_name: String,
    pub file_path: Option<String>,
}

/// A table name, qualified by its schema where one is given.
#[derive(Debug)]
pub struct MigrationTable {
    pub schema: Option<String>,
    pub name: String,
}

/// The type of a column of the migration table.
#[derive(Debug, Clone, Copy)]
pub enum ColumnType {
    /// An auto-incremented integer primary key.
    Primary,
    Text,
    Integer,
    Date,
    /// A type written out as is.
    Custom(&'static str),
}

/// A column of the migration table.
#[derive(Debug, Clone, Copy)]
pub struct ColumnSpec {
    pub name: &'static str,
    pub column_type: ColumnType,
    pub nullable: bool,
}

/// How to create the migration table: in which schema, for which SQL
/// family, whether only when it is missing, and with which columns.
#[derive(Debug)]
pub struct MigrationTableSetup {
    pub schema: String,
    pub table: &'static str,
    pub variant: SqlFamily,
    pub if_not_exists: bool,
    pub columns: Vec<ColumnSpec>,
}

/// The columns of the migration table, given the types for points in time
/// and for unbounded text.
pub open spec fn migration_columns(datetime_type: ColumnType, unlimited_text_type: ColumnType) -> Seq<
    ColumnSpec,
> {
    seq![
        ColumnSpec { name: REVISION_COLUMN, column_type: ColumnType::Primary, nullable: false },
        ColumnSpec { name: NAME_COLUMN, column_type: ColumnType::Text, nullable: false },
        ColumnSpec { name: DATAMODEL_COLUMN, column_type: unlimited_text_type, nullable: false },
        ColumnSpec { name: STATUS_COLUMN, column_type: ColumnType::Text, nullable: false },
        ColumnSpec { name: APPLIED_COLUMN, column_type: ColumnType::Integer, nullable: false },
        ColumnSpec { name: ROLLED_BACK_COLUMN, column_type: ColumnType::Integer, nullable: false },
        ColumnSpec { name: DATAMODEL_STEPS_COLUMN, column_type: unlimited_text_type, nullable: false },
        ColumnSpec {
            name: DATABASE_MIGRATION_COLUMN,
            column_type: unlimited_text_type,
            nullable: false,
        },
        ColumnSpec { name: ERRORS_COLUMN, column_type: unlimited_text_type, nullable: false },
        ColumnSpec { name: STARTED_AT_COLUMN, column_type: datetime_type, nullable: false },
        ColumnSpec { name: FINISHED_AT_COLUMN, column_type: datetime_type, nullable: true },
    ]
}

/// The column types of a family: for points in time, and for unbounded text.
pub open spec fn family_column_types(family: SqlFamily) -> (ColumnType, ColumnType) {
    match family {
        SqlFamily::Sqlite => (ColumnType::Date, ColumnType::Custom("TEXT")),
        SqlFamily::Postgres => (ColumnType::Custom("timestamp(3)"), ColumnType::Custom("TEXT")),
        SqlFamily::Mysql => (ColumnType::Custom("datetime(3)"), ColumnType::Custom("LONGTEXT")),
    }
}

/// The type `t` is written out as exactly `sql`.
pub open spec fn custom_type(t: ColumnType, sql: Seq<char>) -> bool {
    t matches ColumnType::Custom(x) && x@ == sql
}

/// The migration table that initializing creates has, on every family, the
/// columns `revision` (primary key), `name`, `datamodel`, `status`,
/// `applied`, `rolled_back`, `datamodel_steps`, `database_migration`,
/// `errors`, `started_at` and `finished_at` (only the last nullable). Its
/// unbounded texts (the datamodel, the steps, the database migration and the
/// errors) are `TEXT` on SQLite and PostgreSQL and `LONGTEXT` on MySQL; its
/// points in time are dates on SQLite, `timestamp(3)` on PostgreSQL and
/// `datetime(3)` on MySQL.
pub proof fn lemma_migration_table_column_types(p: SqlMigrationPersistence, setup: MigrationTableSetup)
    requires
        setup.columns@ == migration_columns(
            family_column_types(p.sql_family).0,
            family_column_types(p.sql_family).1,
        ),
    ensures
        setup.columns@.len() == 11,
        setup.columns@[0].name@ == "revision"@ && setup.columns@[0].column_type is Primary,
        setup.columns@[1].name@ == "name"@ && setup.columns@[1].column_type is Text,
        setup.columns@[2].name@ == "datamodel"@,
        setup.columns@[3].name@ == "status"@ && setup.columns@[3].column_type is Text,
        setup.columns@[4].name@ == "applied"@ && setup.columns@[4].column_type is Integer,
        setup.columns@[5].name@ == "rolled_back"@ && setup.columns@[5].column_type is Integer,
        setup.columns@[6].name@ == "datamodel_steps"@,
        setup.columns@[7].name@ == "database_migration"@,
        setup.columns@[8].name@ == "errors"@,
        setup.columns@[9].name@ == "started_at"@,
        setup.columns@[10].name@ == "finished_at"@,
        forall|k: int| 0 <= k < 10 ==> !(#[trigger] setup.columns@[k]).nullable,
        setup.columns@[10].nullable,
        forall|k: int|
            (k == 2 || k == 6 || k == 7 || k == 8) ==> match p.sql_family {
                SqlFamily::Mysql => custom_type((#[trigger] setup.columns@[k]).column_type, "LONGTEXT"@),
                _ => custom_type(setup.columns@[k].column_type, "TEXT"@),
            },
        forall|k: int|
            (k == 9 || k == 10) ==> match p.sql_family {
                SqlFamily::Sqlite => (#[trigger] setup.columns@[k]).column_type is Date,
                SqlFamily::Postgres => custom_type(setup.columns@[k].column_type, "timestamp(3)"@),
                SqlFamily::Mysql => custom_type(setup.columns@[k].column_type, "datetime(3)"@),
            },
{
}

/// The columns of the migration table.
pub fn migration_table_setup(datetime_type: ColumnType, unlimited_text_type: ColumnType) -> (res: Vec<
    ColumnSpec,
>)
    ensures
        res@ == migration_columns(datetime_type, unlimited_text_type),
{
    let mut t: Vec<ColumnSpec> = Vec::new();
    t.push(ColumnSpec { name: REVISION_COLUMN, column_type: ColumnType::Primary, nullable: false });
    t.push(ColumnSpec { name: NAME_COLUMN, column_type: ColumnType::Text, nullable: false });
    t.push(ColumnSpec { name: DATAMODEL_COLUMN, column_type: unlimited_text_type, nullable: false });
    t.push(ColumnSpec { name: STATUS_COLUMN, column_type: ColumnType::Text, nullable: false });
    t.push(ColumnSpec { name: APPLIED_COLUMN, column_type: ColumnType::Integer, nullable: false });
    t.push(
        ColumnSpec { name: ROLLED_BACK_COLUMN, column_type: ColumnType::Integer, nullable: false },
    );
    t.push(
        ColumnSpec {
            name: DATAMODEL_STEPS_COLUMN,
            column_type: unlimited_text_type,
            nullable: false,
        },
    );
    t.push(
        ColumnSpec {
            name: DATABASE_MIGRATION_COLUMN,
            column_type: unlimited_text_type,
            nullable: false,
        },
    );
    t.push(ColumnSpec { name: ERRORS_COLUMN, column_type: unlimited_text_type, nullable: false });
    t.push(ColumnSpec { name: STARTED_AT_COLUMN, column_type: datetime_type, nullable: false });
    t.push(ColumnSpec { name: FINISHED_AT_COLUMN, column_type: datetime_type, nullable: true });
    assert(t@ =~= migration_columns(datetime_type, unlimited_text_type));
    t
}

/// The columns of the migration table on SQLite.
pub fn migration_table_setup_sqlite() -> (res: Vec<ColumnSpec>)
    ensures
        res@ == migration_columns(ColumnType::Date, ColumnType::Custom("TEXT")),
{
    migration_table_setup(ColumnType::Date, ColumnType::Custom("TEXT"))
}

/// The columns of the migration table on PostgreSQL.
pub fn migration_table_setup_postgres() -> (res: Vec<ColumnSpec>)
    ensures
        res@ == migration_columns(ColumnType::Custom("timestamp(3)"), ColumnType::Custom("TEXT")),
{
    migration_table_setup(ColumnType::Custom("timestamp(3)"), ColumnType::Custom("TEXT"))
}

/// The columns of the migration table on MySQL.
pub fn migration_table_setup_mysql() -> (res: Vec<ColumnSpec>)
    ensures
        res@ == migration_columns(ColumnType::Custom("datetime(3)"), ColumnType::Custom("LONGTEXT")),
{
    migration_table_setup(ColumnType::Custom("datetime(3)"), ColumnType::Custom("LONGTEXT"))
}

/// What resetting the migration record does: run these statements, in
/// order, then delete this file (if any), ignoring failures.
#[derive(Debug)]
pub struct ResetPlan {
    pub statements: Vec<String>,
    pub remove_file: Option<String>,
}

/// The statement that empties the migration table of `schema`.
pub open spec fn delete_migrations_spec(schema: Seq<char>) -> Seq<char> {
    "DELETE FROM \""@ + schema + "\".\"_Migration\";"@
}

/// The statement that drops `schema` on PostgreSQL or MySQL.
pub open spec fn drop_schema_spec(family: SqlFamily, schema: Seq<char>) -> Seq<char> {
    match family {
        SqlFamily::Mysql => "DROP SCHEMA `"@ + schema + "`;"@,
        _ => "DROP SCHEMA \""@ + schema + "\" CASCADE;"@,
    }
}

/// The milliseconds since the UNIX epoch of a point in time, as chrono's
/// `timestamp_millis` computes them.
pub open spec fn timestamp_millis(dt: UtcDateTime) -> int {
    dt.secs * 1000 + dt.nanos / 1_000_000
}

/// Division of `a` by `b`, rounded toward zero, as Rust's `/` on integers.
pub open spec fn trunc_div(a: int, b: int) -> int {
    if a >= 0 {
        a / b
    } else {
        -((-a) / b)
    }
}

/// The seconds and nanoseconds that a millisecond timestamp splits into
/// (`timestamp / 1000` and `(timestamp % 1000) * 1_000_000` as a `u32`).
pub open spec fn timestamp_parts(timestamp: i64) -> (i64, u32) {
    let secs = trunc_div(timestamp as int, 1000);
    let rem = timestamp - secs * 1000;
    (secs as i64, (rem * 1_000_000) as u32)
}

impl SqlMigrationPersistence {
    /// The schema that qualifies the migration table: none on SQLite, else
    /// the connector's schema.
    pub open spec fn table_schema(&self) -> Option<String> {
        match self.sql_family {
            SqlFamily::Sqlite => None,
            _ => Some(self.schema_name),
        }
    }

    /// The migration table: on SQLite by its bare name, elsewhere qualified
    /// by the schema.
    pub fn table(&self) -> (res: MigrationTable)
        ensures
            res.name@ == TABLE_NAME@,
            res.schema == self.table_schema(),
    {
        match self.sql_family {
            SqlFamily::Sqlite => MigrationTable { schema: None, name: String::from_str(TABLE_NAME) },
            _ => MigrationTable {
                schema: Some(self.schema_name.clone()),
                name: String::from_str(TABLE_NAME),
            },
        }
    }

    /// How to create the migration table: on SQLite only when it is missing,
    /// with the column types of the family.
    pub fn init_setup(&self) -> (res: MigrationTableSetup)
        ensures
            res.schema == self.schema_name,
            res.table == TABLE_NAME,
            res.variant == self.sql_family,
            res.if_not_exists == (self.sql_family == SqlFamily::Sqlite),
            res.columns@ == migration_columns(
                family_column_types(self.sql_family).0,
                family_column_types(self.sql_family).1,
            ),
    {
        let (columns, if_not_exists) = match self.sql_family {
            SqlFamily::Sqlite => (migration_table_setup_sqlite(), true),
            SqlFamily::Postgres => (migration_table_setup_postgres(), false),
            SqlFamily::Mysql => (migration_table_setup_mysql(), false),
        };
        MigrationTableSetup {
            schema: self.schema_name.clone(),
            table: TABLE_NAME,
            variant: self.sql_family,
            if_not_exists,
            columns,
        }
    }

    /// What resetting does: empty the migration table; then drop the schema
    /// (PostgreSQL, MySQL) or delete the database file (SQLite).
    pub fn reset_plan(&self) -> (res: ResetPlan)
        ensures
            res.statements@.len() >= 1,
            res.statements@[0]@ == delete_migrations_spec(self.schema_name@),
            match self.sql_family {
                SqlFamily::Sqlite => res.statements@.len() == 1 && res.remove_file == self.file_path,
                _ => {
                    &&& res.statements@.len() == 2
                    &&& res.statements@[1]@ == drop_schema_spec(self.sql_family, self.schema_name@)
                    &&& res.remove_file is None
                },
            },
    {
        let mut delete = String::from_str("DELETE FROM \"");
        delete.append(self.schema_name.as_str());
        delete.append("\".\"_Migration\";");
        let mut statements: Vec<String> = Vec::new();
        statements.push(delete);
        match self.sql_family {
            SqlFamily::Postgres => {
                let mut s = String::from_str("DROP SCHEMA \"");
                s.append(self.schema_name.as_str());
                s.append("\" CASCADE;");
                statements.push(s);
                ResetPlan { statements, remove_file: None }
            },
            SqlFamily::Sqlite => ResetPlan { statements, remove_file: self.file_path.clone() },
            SqlFamily::Mysql => {
                let mut s = String::from_str("DROP SCHEMA `");
                s.append(self.schema_name.as_str());
                s.append("`;");
                statements.push(s);
                ResetPlan { statements, remove_file: None }
            },
        }
    }

    /// How a point in time is stored: milliseconds since the UNIX epoch on
    /// SQLite, a date and time elsewhere.
    pub fn convert_datetime(&self, datetime: UtcDateTime) -> (res: DbValue)
        requires
            i64::MIN <= timestamp_millis(datetime) <= i64::MAX,
        ensures
            res == match self.sql_family {
                SqlFamily::Sqlite => DbValue::Integer(timestamp_millis(datetime) as i64),
                _ => DbValue::DateTime(datetime),
            },
    {
        match self.sql_family {
            SqlFamily::Sqlite => {
                let millis: i128 = (datetime.secs as i128) * 1000 + ((datetime.nanos / 1_000_000) as i128);
                DbValue::Integer(millis as i64)
            },
            SqlFamily::Postgres => DbValue::DateTime(datetime),
            SqlFamily::Mysql => DbValue::DateTime(datetime),
        }
    }
}

/// The point in time of a millisecond timestamp, which chrono must accept.
pub fn timestamp_to_datetime(timestamp: i64) -> (res: UtcDateTime)
    requires
        chrono_accepts_timestamp(timestamp_parts(timestamp).0, timestamp_parts(timestamp).1),
    ensures
        res.secs == timestamp_parts(timestamp).0,
        res.nanos == timestamp_parts(timestamp).1,
{
    let nsecs: u32 = ((timestamp % 1000) * 1_000_000) as u32;
    let secs: i64 = timestamp / 1000;
    utc_from_timestamp(secs, nsecs).unwrap()
}

/// The point in time of a millisecond timestamp, or `None` when chrono
/// refuses its seconds or nanoseconds.
pub fn try_timestamp_to_datetime(timestamp: i64) -> (res: Option<UtcDateTime>)
    ensures
        res is Some <==> chrono_accepts_timestamp(
            timestamp_parts(timestamp).0,
            timestamp_parts(timestamp).1,
        ),
        res matches Some(d) ==> d.secs == timestamp_parts(timestamp).0 && d.nanos
            == timestamp_parts(timestamp).1,
{
    let nsecs: u32 = ((timestamp % 1000) * 1_000_000) as u32;
    let secs: i64 = timestamp / 1000;
    utc_from_timestamp(secs, nsecs)
}

/// The values from which a point in time can be read back: a millisecond
/// timestamp that chrono accepts, or a date and time.
pub open spec fn date_value_readable(v: DbValue) -> bool {
    match v {
        DbValue::Integer(x) => chrono_accepts_timestamp(timestamp_parts(x).0, timestamp_parts(x).1),
        DbValue::DateTime(_) => true,
        _ => false,
    }
}

/// Reads back a stored point in time.
pub fn convert_parameterized_date_value(db_value: &DbValue) -> (res: UtcDateTime)
    requires
        date_value_readable(*db_value),
    ensures
        match *db_value {
            DbValue::Integer(x) => res.secs == timestamp_parts(x).0 && res.nanos == timestamp_parts(
                x,
            ).1,
            DbValue::DateTime(d) => res == d,
            _ => false,
        },
{
    match db_value {
        DbValue::Integer(x) => timestamp_to_datetime(*x),
        DbValue::DateTime(x) => *x,
        _ => {
            proof {
                assert(false);
            }
            UtcDateTime { secs: 0, nanos: 0 }
        },
    }
}

/// Reads back a stored point in time, or `None` where the value holds none.
pub fn try_convert_parameterized_date_value(db_value: &DbValue) -> (res: Option<UtcDateTime>)
    ensures
        res is Some <==> date_value_readable(*db_value),
        res matches Some(r) ==> match *db_value {
            DbValue::Integer(x) => r.secs == timestamp_parts(x).0 && r.nanos == timestamp_parts(x).1,
            DbValue::DateTime(d) => r == d,
            _ => false,
        },
{
    match db_value {
        DbValue::Integer(x) => try_timestamp_to_datetime(*x),
        DbValue::DateTime(x) => Some(*x),
        _ => None,
    }
}

/// A point in time at or after the UNIX epoch, stored on SQLite (as
/// milliseconds), reads back truncated to whole milliseconds: the same
/// second and the nanoseconds rounded down to a millisecond (nanoseconds of a
/// leap second, at least one billion, carry into the next second). A point
/// in time with millisecond precision therefore reads back unchanged.
pub proof fn lemma_sqlite_datetime_round_trip(dt: UtcDateTime)
    requires
        dt.secs >= 0,
        timestamp_millis(dt) <= i64::MAX,
    ensures
        timestamp_parts(timestamp_millis(dt) as i64) == (
            (dt.secs + dt.nanos / 1_000_000_000) as i64,
            (dt.nanos % 1_000_000_000 / 1_000_000 * 1_000_000) as u32,
        ),
        dt.nanos < 1_000_000_000 ==> timestamp_parts(timestamp_millis(dt) as i64) == (
            dt.secs,
            (dt.nanos - dt.nanos % 1_000_000) as u32,
        ),
{
    let millis = timestamp_millis(dt);
    let n = dt.nanos as int;
    let k = n / 1_000_000;
    let q = k / 1000;
    let r = k % 1000;
    assert(millis == dt.secs * 1000 + k);
    assert(k == q * 1000 + r && 0 <= r < 1000) by (nonlinear_arith)
        requires
            q == k / 1000,
            r == k % 1000,
            k >= 0,
    ;
    assert(millis / 1000 == dt.secs + q) by (nonlinear_arith)
        requires
            millis == dt.secs * 1000 + q * 1000 + r,
            0 <= r < 1000,
            dt.secs >= 0,
            q >= 0,
    ;
    assert(millis - (dt.secs + q) * 1000 == r) by (nonlinear_arith)
        requires
            millis == dt.secs * 1000 + q * 1000 + r,
    ;
    assert(q == n / 1_000_000_000 && r == n % 1_000_000_000 / 1_000_000) by (nonlinear_arith)
        requires
            k == n / 1_000_000,
            q == k / 1000,
            r == k % 1000,
            n >= 0,
    ;
    assert(n < 1_000_000_000 ==> r * 1_000_000 == n - n % 1_000_000) by (nonlinear_arith)
        requires
            k == n / 1_000_000,
            r == k % 1000,
            n >= 0,
    ;
}

/// A point in time at or after the UNIX epoch, stored as `convert_datetime`
/// stores it, reads back (by `convert_parameterized_date_value`) as itself on
/// PostgreSQL and MySQL, and truncated to whole milliseconds on SQLite.
pub proof fn lemma_stored_datetime_reads_back(family: SqlFamily, dt: UtcDateTime)
    requires
        dt.secs >= 0,
        dt.nanos < 1_000_000_000,
        storable(dt),
    ensures
        match stored_datetime(family, dt) {
            DbValue::Integer(x) => family == SqlFamily::Sqlite && timestamp_parts(x) == (
                dt.secs,
                (dt.nanos - dt.nanos % 1_000_000) as u32,
            ),
            DbValue::DateTime(d) => family != SqlFamily::Sqlite && d == dt,
            _ => false,
        },
{
    lemma_sqlite_datetime_round_trip(dt);
}

// ---------------------------------------------------------------------------
// Lists of strings as JSON (the errors of a migration).

/// What `serde_json::from_str::<Vec<String>>` makes of a text: `None` when
/// it is not a JSON array of strings, else the strings.
pub uninterp spec fn json_string_list(text: Seq<char>) -> Option<Seq<Seq<char>>>;

/// The lowercase hexadecimal digit for `d` (below sixteen).
pub open spec fn hex_digit(d: int) -> char {
    if d < 10 {
        (d + 48) as char
    } else {
        (d + 87) as char
    }
}

/// How serde_json writes one character inside a JSON string: `"` and `\`
/// behind a backslash; backspace, tab, line feed, form feed and carriage
/// return as `\b`, `\t`, `\n`, `\f`, `\r`; the other ASCII control
/// characters as `\u00` and two lowercase hexadecimal digits; every other
/// character as itself.
pub open spec fn json_escape_char(c: char) -> Seq<char> {
    if c == '"' {
        seq!['\\', '"']
    } else if c == '\\' {
        seq!['\\', '\\']
    } else if c == '\u{8}' {
        seq!['\\', 'b']
    } else if c == '\t' {
        seq!['\\', 't']
    } else if c == '\n' {
        seq!['\\', 'n']
    } else if c == '\u{c}' {
        seq!['\\', 'f']
    } else if c == '\r' {
        seq!['\\', 'r']
    } else if (c as int) < 0x20 {
        seq!['\\', 'u', '0', '0', hex_digit((c as int) / 16), hex_digit((c as int) % 16)]
    } else {
        seq![c]
    }
}

/// The characters of `s`, each written as `json_escape_char` writes it.
pub open spec fn json_escape(s: Seq<char>) -> Seq<char>
    decreases s.len(),
{
    if s.len() == 0 {
        Seq::empty()
    } else {
        json_escape_char(s[0]) + json_escape(s.drop_first())
    }
}

/// A string as a JSON string: quoted, with its characters escaped.
pub open spec fn json_string(s: Seq<char>) -> Seq<char> {
    seq!['"'] + json_escape(s) + seq!['"']
}

/// The JSON strings of a list, separated by commas.
pub open spec fn json_items(strings: Seq<Seq<char>>) -> Seq<char>
    decreases strings.len(),
{
    if strings.len() == 0 {
        Seq::empty()
    } else if strings.len() == 1 {
        json_string(strings[0])
    } else {
        json_string(strings[0]) + seq![','] + json_items(strings.drop_first())
    }
}

/// The JSON text that `serde_json::to_string` writes for a list of strings:
/// compact, `[`, the JSON strings separated by `,`, then `]`.
pub open spec fn json_of_string_list(strings: Seq<Seq<char>>) -> Seq<char> {
    seq!['['] + json_items(strings) + seq![']']
}

/// Reads a JSON array of strings with `serde_json::from_str::<Vec<String>>`.
///
/// Trusted: the result is named by `json_string_list`, a function of the
/// text alone.
#[verifier::external_body]
fn parse_json_string_list(text: &str) -> (res: Option<Vec<String>>)
    ensures
        match res {
            None => json_string_list(text@) is None,
            Some(v) => json_string_list(text@) == Some(string_views(v@)),
        },
{
    serde_json::from_str::<Vec<String>>(text).ok()
}

/// Writes a list of strings as a JSON array with `serde_json::to_string`.
///
/// Trusted: the result is `json_of_string_list` of the strings, as
/// serde_json's compact formatter writes arrays and escapes strings (its
/// `ESCAPE` table and `write_char_escape`). Serializing strings into memory does not fail in
/// serde_json (its writer is a `Vec<u8>` and strings serialize without
/// error), so the `Result` is unwrapped.
#[verifier::external_body]
fn string_list_json(strings: &Vec<String>) -> (res: String)
    ensures
        res@ == json_of_string_list(string_views(strings@)),
{
    serde_json::to_string(strings).unwrap()
}

// ---------------------------------------------------------------------------
// Reading migrations back.

/// A migration as the migration table records it. The datamodel is kept as
/// its rendered schema, and the steps and the database migration as their
/// JSON text; the errors are the strings of the JSON array stored for them.
#[derive(Debug)]
pub struct MigrationRecord {
    pub name: String,
    pub revision: usize,
    pub datamodel: String,
    pub status: String,
    pub applied: usize,
    pub rolled_back: usize,
    pub datamodel_steps: String,
    pub database_migration: String,
    pub errors: Vec<String>,
    pub started_at: UtcDateTime,
    pub finished_at: Option<UtcDateTime>,
}

/// The value of column `col` in row `i`, if the result set has that column
/// and the row a value for it.
pub open spec fn cell(rs: ResultSet, i: int, col: Seq<char>) -> Option<DbValue> {
    match column_position(rs.columns@, col) {
        Some(k) => if k < rs.rows@[i]@.len() {
            Some(rs.rows@[i]@[k])
        } else {
            None
        },
        None => None,
    }
}

/// Column `col` of row `i` holds text.
pub open spec fn text_cell(rs: ResultSet, i: int, col: Seq<char>) -> bool {
    cell(rs, i, col) matches Some(DbValue::Text(_))
}

/// Column `col` of row `i` holds an integer.
pub open spec fn int_cell(rs: ResultSet, i: int, col: Seq<char>) -> bool {
    cell(rs, i, col) matches Some(DbValue::Integer(_))
}

/// Row `i` holds a migration: text, integer and date values in the columns
/// that hold them (the finish date may be null).
pub open spec fn row_readable(rs: ResultSet, i: int) -> bool {
    &&& text_cell(rs, i, DATAMODEL_COLUMN@)
    &&& text_cell(rs, i, DATAMODEL_STEPS_COLUMN@)
    &&& text_cell(rs, i, DATABASE_MIGRATION_COLUMN@)
    &&& cell(rs, i, ERRORS_COLUMN@) matches Some(DbValue::Text(t)) && json_string_list(t@) is Some
    &&& text_cell(rs, i, NAME_COLUMN@)
    &&& text_cell(rs, i, STATUS_COLUMN@)
    &&& int_cell(rs, i, REVISION_COLUMN@)
    &&& int_cell(rs, i, APPLIED_COLUMN@)
    &&& int_cell(rs, i, ROLLED_BACK_COLUMN@)
    &&& cell(rs, i, STARTED_AT_COLUMN@) matches Some(v) && date_value_readable(v)
    &&& cell(rs, i, FINISHED_AT_COLUMN@) matches Some(v) && (v is Null || date_value_readable(v))
}

/// Every row of the result set holds a migration.
pub open spec fn rows_readable(rs: ResultSet) -> bool {
    forall|i: int| 0 <= i < rs.rows@.len() ==> row_readable(rs, i)
}

/// `d` is the point in time stored as `v`.
pub open spec fn date_converts(v: DbValue, d: UtcDateTime) -> bool {
    match v {
        DbValue::Integer(x) => d.secs == timestamp_parts(x).0 && d.nanos == timestamp_parts(x).1,
        DbValue::DateTime(e) => d == e,
        _ => false,
    }
}

/// `r` is the migration that row `i` holds: each field read from its column;
/// integers become `usize` as Rust's `as` casts them; a null finish date
/// becomes `None`.
pub open spec fn row_converts(rs: ResultSet, i: int, r: MigrationRecord) -> bool {
    &&& cell(rs, i, NAME_COLUMN@) == Some(DbValue::Text(r.name))
    &&& cell(rs, i, DATAMODEL_COLUMN@) == Some(DbValue::Text(r.datamodel))
    &&& cell(rs, i, STATUS_COLUMN@) == Some(DbValue::Text(r.status))
    &&& cell(rs, i, DATAMODEL_STEPS_COLUMN@) == Some(DbValue::Text(r.datamodel_steps))
    &&& cell(rs, i, DATABASE_MIGRATION_COLUMN@) == Some(DbValue::Text(r.database_migration))
    &&& cell(rs, i, ERRORS_COLUMN@) matches Some(DbValue::Text(t)) && json_string_list(t@) == Some(
        string_views(r.errors@),
    )
    &&& r.revision == cell(rs, i, REVISION_COLUMN@).unwrap().spec_as_i64().unwrap() as usize
    &&& r.applied == cell(rs, i, APPLIED_COLUMN@).unwrap().spec_as_i64().unwrap() as usize
    &&& r.rolled_back == cell(rs, i, ROLLED_BACK_COLUMN@).unwrap().spec_as_i64().unwrap() as usize
    &&& date_converts(cell(rs, i, STARTED_AT_COLUMN@).unwrap(), r.started_at)
    &&& match cell(rs, i, FINISHED_AT_COLUMN@).unwrap() {
        DbValue::Null => r.finished_at is None,
        v => r.finished_at matches Some(d) && date_converts(v, d),
    }
}

/// The value of column `col` in row `i`.
fn cell_at<'a>(rs: &'a ResultSet, i: usize, col: &str) -> (res: Option<&'a DbValue>)
    requires
        i < rs.rows@.len(),
    ensures
        match res {
            Some(v) => cell(*rs, i as int, col@) == Some(*v),
            None => cell(*rs, i as int, col@) is None,
        },
{
    match rs.column_index(col) {
        Some(k) => if k < rs.rows[i].len() {
            Some(&rs.rows[i][k])
        } else {
            None
        },
        None => None,
    }
}

fn text_at(rs: &ResultSet, i: usize, col: &str) -> (res: String)
    requires
        i < rs.rows@.len(),
        text_cell(*rs, i as int, col@),
    ensures
        cell(*rs, i as int, col@) == Some(DbValue::Text(res)),
{
    match cell_at(rs, i, col) {
        Some(DbValue::Text(s)) => s.clone(),
        _ => {
            proof {
                assert(false);
            }
            String::new()
        },
    }
}

fn usize_at(rs: &ResultSet, i: usize, col: &str) -> (res: usize)
    requires
        i < rs.rows@.len(),
        int_cell(*rs, i as int, col@),
    ensures
        res == cell(*rs, i as int, col@).unwrap().spec_as_i64().unwrap() as usize,
{
    match cell_at(rs, i, col) {
        Some(DbValue::Integer(x)) => *x as usize,
        _ => {
            proof {
                assert(false);
            }
            0
        },
    }
}

/// The migration that row `i` holds.
pub fn parse_migration_row(rs: &ResultSet, i: usize) -> (res: MigrationRecord)
    requires
        i < rs.rows@.len(),
        row_readable(*rs, i as int),
    ensures
        row_converts(*rs, i as int, res),
{
    let started_at = match cell_at(rs, i, STARTED_AT_COLUMN) {
        Some(v) => convert_parameterized_date_value(v),
        None => {
            proof {
                assert(false);
            }
            UtcDateTime { secs: 0, nanos: 0 }
        },
    };
    let finished_at = match cell_at(rs, i, FINISHED_AT_COLUMN) {
        Some(DbValue::Null) => None,
        Some(v) => Some(convert_parameterized_date_value(v)),
        None => {
            proof {
                assert(false);
            }
            None
        },
    };
    let errors = match cell_at(rs, i, ERRORS_COLUMN) {
        Some(DbValue::Text(t)) => match parse_json_string_list(t.as_str()) {
            Some(v) => v,
            None => {
                proof {
                    assert(false);
                }
                Vec::new()
            },
        },
        _ => {
            proof {
                assert(false);
            }
            Vec::new()
        },
    };
    MigrationRecord {
        name: text_at(rs, i, NAME_COLUMN),
        revision: usize_at(rs, i, REVISION_COLUMN),
        datamodel: text_at(rs, i, DATAMODEL_COLUMN),
        status: text_at(rs, i, STATUS_COLUMN),
        applied: usize_at(rs, i, APPLIED_COLUMN),
        rolled_back: usize_at(rs, i, ROLLED_BACK_COLUMN),
        datamodel_steps: text_at(rs, i, DATAMODEL_STEPS_COLUMN),
        database_migration: text_at(rs, i, DATABASE_MIGRATION_COLUMN),
        errors,
        started_at,
        finished_at,
    }
}

/// The migrations that the rows of a result set hold, in order.
pub fn parse_rows_new(result_set: &ResultSet) -> (res: Vec<MigrationRecord>)
    requires
        rows_readable(*result_set),
    ensures
        res@.len() == result_set.rows@.len(),
        forall|i: int| 0 <= i < res@.len() ==> row_converts(*result_set, i, #[trigger] res@[i]),
{
    let mut out: Vec<MigrationRecord> = Vec::new();
    let n = result_set.rows.len();
    for i in 0..n
        invariant
            n == result_set.rows@.len(),
            rows_readable(*result_set),
            out@.len() == i,
            forall|j: int| 0 <= j < i ==> row_converts(*result_set, j, #[trigger] out@[j]),
    {
        out.push(parse_migration_row(result_set, i));
    }
    out
}

fn text_cell_present(rs: &ResultSet, i: usize, col: &str) -> (res: bool)
    requires
        i < rs.rows@.len(),
    ensures
        res == text_cell(*rs, i as int, col@),
{
    match cell_at(rs, i, col) {
        Some(DbValue::Text(_)) => true,
        _ => false,
    }
}

fn int_cell_present(rs: &ResultSet, i: usize, col: &str) -> (res: bool)
    requires
        i < rs.rows@.len(),
    ensures
        res == int_cell(*rs, i as int, col@),
{
    match cell_at(rs, i, col) {
        Some(DbValue::Integer(_)) => true,
        _ => false,
    }
}

/// Whether row `i` holds a migration.
pub fn row_is_readable(rs: &ResultSet, i: usize) -> (res: bool)
    requires
        i < rs.rows@.len(),
    ensures
        res == row_readable(*rs, i as int),
{
    let started = match cell_at(rs, i, STARTED_AT_COLUMN) {
        Some(v) => try_convert_parameterized_date_value(v).is_some(),
        None => false,
    };
    let finished = match cell_at(rs, i, FINISHED_AT_COLUMN) {
        Some(DbValue::Null) => true,
        Some(v) => try_convert_parameterized_date_value(v).is_some(),
        None => false,
    };
    let errors = match cell_at(rs, i, ERRORS_COLUMN) {
        Some(DbValue::Text(t)) => parse_json_string_list(t.as_str()).is_some(),
        _ => false,
    };
    text_cell_present(rs, i, DATAMODEL_COLUMN) && text_cell_present(rs, i, DATAMODEL_STEPS_COLUMN)
        && text_cell_present(rs, i, DATABASE_MIGRATION_COLUMN) && errors && text_cell_present(rs, i, NAME_COLUMN) && text_cell_present(rs, i, STATUS_COLUMN)
        && int_cell_present(rs, i, REVISION_COLUMN) && int_cell_present(rs, i, APPLIED_COLUMN)
        && int_cell_present(rs, i, ROLLED_BACK_COLUMN) && started && finished
}

/// The migrations that the rows of a result set hold, or `None` when a row
/// does not hold one.
pub fn try_parse_rows(result_set: &ResultSet) -> (res: Option<Vec<MigrationRecord>>)
    ensures
        res is Some <==> rows_readable(*result_set),
        res matches Some(v) ==> v@.len() == result_set.rows@.len() && forall|i: int|
            0 <= i < v@.len() ==> row_converts(*result_set, i, #[trigger] v@[i]),
{
    let n = result_set.rows.len();
    for i in 0..n
        invariant
            n == result_set.rows@.len(),
            forall|j: int| 0 <= j < i ==> row_readable(*result_set, j),
    {
        if !row_is_readable(result_set, i) {
            return None;
        }
    }
    Some(parse_rows_new(result_set))
}

// ---------------------------------------------------------------------------
// Writing and selecting migrations.

/// The status code of a successfully applied migration.
pub const MIGRATION_SUCCESS_STATUS: &'static str = "MigrationSuccess";

/// A select on the migration table: the rows where `condition` (a column
/// and the value it must hold) is met, if any, ordered by revision.
#[derive(Debug)]
pub struct MigrationSelect {
    pub table: MigrationTable,
    pub condition: Option<(&'static str, DbValue)>,
    pub descending: bool,
}

/// What an update of a migration's row changes, and which row.
#[derive(Debug)]
pub struct MigrationUpdateParams {
    pub name: String,
    pub new_name: String,
    pub revision: usize,
    pub status: String,
    pub applied: usize,
    pub rolled_back: usize,
    pub errors: Vec<String>,
    pub finished_at: Option<UtcDateTime>,
}

/// An update of the migration table: the column values to set, on the row
/// whose name and revision are given.
#[derive(Debug)]
pub struct MigrationUpdate {
    pub table: MigrationTable,
    pub assignments: Vec<(&'static str, DbValue)>,
    pub name: String,
    pub revision: DbValue,
}

/// The id that the database gives an inserted row.
#[derive(Debug)]
pub enum InsertedId {
    /// An integer id.
    Int(usize),
    /// Any other kind of id (a string or a UUID).
    Other,
}

/// What the database answers to the insert of a new migration.
#[derive(Debug)]
pub enum InsertOutcome {
    /// The id of the inserted row, if the database gave one (SQLite, MySQL).
    InsertedId(Option<InsertedId>),
    /// The rows that an insert with `RETURNING revision` gave back
    /// (PostgreSQL).
    Returned(ResultSet),
}

/// The answers to an insert from which the new revision can be read: on
/// SQLite and MySQL an integer id; on PostgreSQL returned rows whose first
/// row, if any, holds an integer revision.
pub open spec fn insert_outcome_readable(family: SqlFamily, outcome: InsertOutcome) -> bool {
    match family {
        SqlFamily::Postgres => match outcome {
            InsertOutcome::Returned(rs) => rs.rows@.len() > 0 ==> int_cell(rs, 0, REVISION_COLUMN@),
            _ => false,
        },
        _ => outcome matches InsertOutcome::InsertedId(Some(InsertedId::Int(_))),
    }
}

/// The revision of a migration just inserted, whose revision was `revision`
/// before (see `SqlMigrationPersistence::created_revision`).
pub open spec fn created_revision_spec(revision: usize, outcome: InsertOutcome) -> usize {
    match outcome {
        InsertOutcome::InsertedId(Some(InsertedId::Int(id))) => id,
        InsertOutcome::Returned(rs) => if rs.rows@.len() == 0 {
            revision
        } else {
            match cell(rs, 0, REVISION_COLUMN@) {
                Some(DbValue::Integer(x)) => x as usize,
                _ => revision,
            }
        },
        _ => revision,
    }
}

/// The column values of a new migration's row, with `errors_json` the JSON
/// text of its errors: its fields, the start stored per family, and no
/// finish date.
pub open spec fn insert_row_values(family: SqlFamily, m: MigrationRecord, errors_json: String) -> Seq<
    (&'static str, DbValue),
> {
    seq![
        (NAME_COLUMN, DbValue::Text(m.name)),
        (DATAMODEL_COLUMN, DbValue::Text(m.datamodel)),
        (STATUS_COLUMN, DbValue::Text(m.status)),
        (APPLIED_COLUMN, DbValue::Integer(m.applied as i64)),
        (ROLLED_BACK_COLUMN, DbValue::Integer(m.rolled_back as i64)),
        (DATAMODEL_STEPS_COLUMN, DbValue::Text(m.datamodel_steps)),
        (DATABASE_MIGRATION_COLUMN, DbValue::Text(m.database_migration)),
        (ERRORS_COLUMN, DbValue::Text(errors_json)),
        (STARTED_AT_COLUMN, stored_datetime(family, m.started_at)),
        (FINISHED_AT_COLUMN, DbValue::Null),
    ]
}

/// The column values that an update sets, with `errors_json` the JSON text
/// of the new errors.
pub open spec fn update_assignments(family: SqlFamily, params: MigrationUpdateParams, errors_json: String) -> Seq<
    (&'static str, DbValue),
> {
    seq![
        (NAME_COLUMN, DbValue::Text(params.new_name)),
        (STATUS_COLUMN, DbValue::Text(params.status)),
        (APPLIED_COLUMN, DbValue::Integer(params.applied as i64)),
        (ROLLED_BACK_COLUMN, DbValue::Integer(params.rolled_back as i64)),
        (ERRORS_COLUMN, DbValue::Text(errors_json)),
        (FINISHED_AT_COLUMN, match params.finished_at {
            Some(d) => stored_datetime(family, d),
            None => DbValue::Null,
        }),
    ]
}

/// The stored value of a point in time (see `convert_datetime`).
pub open spec fn stored_datetime(family: SqlFamily, dt: UtcDateTime) -> DbValue {
    match family {
        SqlFamily::Sqlite => DbValue::Integer(timestamp_millis(dt) as i64),
        _ => DbValue::DateTime(dt),
    }
}

/// A point in time fits in the storage of every family.
pub open spec fn storable(dt: UtcDateTime) -> bool {
    i64::MIN <= timestamp_millis(dt) <= i64::MAX
}

/// Whether a point in time fits in the storage of every family (its
/// milliseconds fit in an `i64`).
pub fn is_storable(dt: &UtcDateTime) -> (res: bool)
    ensures
        res == storable(*dt),
{
    let millis: i128 = (dt.secs as i128) * 1000 + ((dt.nanos / 1_000_000) as i128);
    i64::MIN as i128 <= millis && millis <= i64::MAX as i128
}

impl SqlMigrationPersistence {
    /// The last successfully applied migration: rows with the success
    /// status, highest revision first (the first row is the one).
    pub fn last_query(&self) -> (res: MigrationSelect)
        ensures
            res.table.name@ == TABLE_NAME@,
            res.table.schema == self.table_schema(),
            res.condition matches Some((c, v)) && c == STATUS_COLUMN && (v matches DbValue::Text(s)
                && s@ == MIGRATION_SUCCESS_STATUS@),
            res.descending,
    {
        MigrationSelect {
            table: self.table(),
            condition: Some((STATUS_COLUMN, DbValue::Text(String::from_str(MIGRATION_SUCCESS_STATUS)))),
            descending: true,
        }
    }

    /// Every migration, lowest revision first.
    pub fn load_all_query(&self) -> (res: MigrationSelect)
        ensures
            res.table.name@ == TABLE_NAME@,
            res.table.schema == self.table_schema(),
            res.condition is None,
            !res.descending,
    {
        MigrationSelect { table: self.table(), condition: None, descending: false }
    }

    /// The migrations with a name, highest revision first (the first row is
    /// the one).
    pub fn by_name_query(&self, name: &str) -> (res: MigrationSelect)
        ensures
            res.table.name@ == TABLE_NAME@,
            res.table.schema == self.table_schema(),
            res.condition matches Some((c, v)) && c == NAME_COLUMN && (v matches DbValue::Text(s)
                && s@ == name@),
            res.descending,
    {
        MigrationSelect {
            table: self.table(),
            condition: Some((NAME_COLUMN, DbValue::Text(String::from_str(name)))),
            descending: true,
        }
    }

    /// The column values of a new migration's row: its fields, with the
    /// start stored per family and no finish date.
    pub fn insert_values(&self, migration: &MigrationRecord) -> (res: Vec<(&'static str, DbValue)>)
        requires
            storable(migration.started_at),
        ensures
            res@.len() == 10,
            res@[7].1 matches DbValue::Text(errors_json) && errors_json@ == json_of_string_list(
                string_views(migration.errors@),
            ) && res@ == insert_row_values(self.sql_family, *migration, errors_json),
    {
        let mut v: Vec<(&'static str, DbValue)> = Vec::new();
        v.push((NAME_COLUMN, DbValue::Text(migration.name.clone())));
        v.push((DATAMODEL_COLUMN, DbValue::Text(migration.datamodel.clone())));
        v.push((STATUS_COLUMN, DbValue::Text(migration.status.clone())));
        v.push((APPLIED_COLUMN, DbValue::Integer(migration.applied as i64)));
        v.push((ROLLED_BACK_COLUMN, DbValue::Integer(migration.rolled_back as i64)));
        v.push((DATAMODEL_STEPS_COLUMN, DbValue::Text(migration.datamodel_steps.clone())));
        v.push((DATABASE_MIGRATION_COLUMN, DbValue::Text(migration.database_migration.clone())));
        let errors_json = string_list_json(&migration.errors);
        let ghost errors_json_spec = errors_json;
        v.push((ERRORS_COLUMN, DbValue::Text(errors_json)));
        v.push((STARTED_AT_COLUMN, self.convert_datetime(migration.started_at)));
        v.push((FINISHED_AT_COLUMN, DbValue::Null));
        proof {
            assert(v@ =~= insert_row_values(self.sql_family, *migration, errors_json_spec));
        }
        v
    }

    /// Whether the database's answer to the insert of a new migration holds
    /// the new revision (see `insert_outcome_readable`).
    pub fn insert_outcome_is_readable(&self, outcome: &InsertOutcome) -> (res: bool)
        ensures
            res == insert_outcome_readable(self.sql_family, *outcome),
    {
        match self.sql_family {
            SqlFamily::Postgres => match outcome {
                InsertOutcome::Returned(rs) => rs.rows.len() == 0 || match cell_at(rs, 0, REVISION_COLUMN) {
                    Some(DbValue::Integer(_)) => true,
                    _ => false,
                },
                _ => false,
            },
            _ => match outcome {
                InsertOutcome::InsertedId(Some(InsertedId::Int(_))) => true,
                _ => false,
            },
        }
    }

    /// Whether the insert of a new migration asks the database to return the
    /// row's revision (`RETURNING revision`): on PostgreSQL only.
    pub fn insert_returns_revision(&self) -> (res: bool)
        ensures
            res == (self.sql_family == SqlFamily::Postgres),
    {
        match self.sql_family {
            SqlFamily::Postgres => true,
            _ => false,
        }
    }

    /// The revision of a migration just inserted (whose revision was
    /// `revision` before): on SQLite and MySQL the id of the inserted row; on
    /// PostgreSQL the revision in the first row returned, or `revision`
    /// unchanged when no row came back.
    pub fn created_revision(&self, revision: usize, outcome: &InsertOutcome) -> (res: usize)
        requires
            insert_outcome_readable(self.sql_family, *outcome),
        ensures
            res == created_revision_spec(revision, *outcome),
    {
        match outcome {
            InsertOutcome::InsertedId(Some(InsertedId::Int(id))) => *id,
            InsertOutcome::Returned(rs) => {
                if rs.rows.len() == 0 {
                    revision
                } else {
                    match cell_at(rs, 0, REVISION_COLUMN) {
                        Some(DbValue::Integer(x)) => #[verifier::truncate] (*x as usize),
                        _ => {
                            proof {
                                assert(false);
                            }
                            revision
                        },
                    }
                }
            },
            _ => {
                proof {
                    assert(false);
                }
                revision
            },
        }
    }

    /// The update of a migration's row: its new name, status, counters,
    /// errors and finish date (stored per family, or null), on the row with
    /// its old name and revision.
    pub fn update_query(&self, params: &MigrationUpdateParams) -> (res: MigrationUpdate)
        requires
            params.finished_at matches Some(d) ==> storable(d),
        ensures
            res.table.name@ == TABLE_NAME@,
            res.table.schema == self.table_schema(),
            res.name == params.name,
            res.revision == DbValue::Integer(params.revision as i64),
            res.assignments@.len() == 6,
            res.assignments@[4].1 matches DbValue::Text(errors_json) && errors_json@
                == json_of_string_list(string_views(params.errors@)) && res.assignments@
                == update_assignments(self.sql_family, *params, errors_json),
    {
        let finished_at_value = match params.finished_at {
            Some(x) => self.convert_datetime(x),
            None => DbValue::Null,
        };
        let mut v: Vec<(&'static str, DbValue)> = Vec::new();
        v.push((NAME_COLUMN, DbValue::Text(params.new_name.clone())));
        v.push((STATUS_COLUMN, DbValue::Text(params.status.clone())));
        v.push((APPLIED_COLUMN, DbValue::Integer(params.applied as i64)));
        v.push((ROLLED_BACK_COLUMN, DbValue::Integer(params.rolled_back as i64)));
        let errors_json = string_list_json(&params.errors);
        let ghost errors_json_spec = errors_json;
        v.push((ERRORS_COLUMN, DbValue::Text(errors_json)));
        v.push((FINISHED_AT_COLUMN, finished_at_value));
        proof {
            assert(v@ =~= update_assignments(self.sql_family, *params, errors_json_spec));
        }
        MigrationUpdate {
            table: self.table(),
            assignments: v,
            name: params.name.clone(),
            revision: DbValue::Integer(params.revision as i64),
        }
    }
}

/// The names of the columns of the migration table, in order.
pub open spec fn migration_column_names() -> Seq<Seq<char>> {
    seq![
        REVISION_COLUMN@,
        NAME_COLUMN@,
        DATAMODEL_COLUMN@,
        STATUS_COLUMN@,
        APPLIED_COLUMN@,
        ROLLED_BACK_COLUMN@,
        DATAMODEL_STEPS_COLUMN@,
        DATABASE_MIGRATION_COLUMN@,
        ERRORS_COLUMN@,
        STARTED_AT_COLUMN@,
        FINISHED_AT_COLUMN@,
    ]
}

/// The row that writing `m` produces, with the revision the database gave
/// it and `errors_json` the JSON text of its errors: the revision, then the
/// values of `insert_values`, in column order.
pub open spec fn written_row(family: SqlFamily, m: MigrationRecord, revision: i64, errors_json: String) -> Seq<DbValue> {
    seq![
        DbValue::Integer(revision),
        DbValue::Text(m.name),
        DbValue::Text(m.datamodel),
        DbValue::Text(m.status),
        DbValue::Integer(m.applied as i64),
        DbValue::Integer(m.rolled_back as i64),
        DbValue::Text(m.datamodel_steps),
        DbValue::Text(m.database_migration),
        DbValue::Text(errors_json),
        stored_datetime(family, m.started_at),
        DbValue::Null,
    ]
}

proof fn lemma_column_names_distinct()
    ensures
        forall|i: int, j: int|
            0 <= i < 11 && 0 <= j < 11 && i != j ==> #[trigger] migration_column_names()[i]
                != #[trigger] migration_column_names()[j],
{
    reveal_strlit("revision");
    reveal_strlit("name");
    reveal_strlit("datamodel");
    reveal_strlit("status");
    reveal_strlit("applied");
    reveal_strlit("rolled_back");
    reveal_strlit("datamodel_steps");
    reveal_strlit("database_migration");
    reveal_strlit("errors");
    reveal_strlit("started_at");
    reveal_strlit("finished_at");
    let n = migration_column_names();
    assert(n[3][0] != n[8][0]);
    assert(n[5][0] != n[10][0]);
    assert forall|i: int, j: int|
        0 <= i < 11 && 0 <= j < 11 && i != j implies #[trigger] n[i] != #[trigger] n[j] by {
        if n[i].len() == n[j].len() {
            assert((i == 3 && j == 8) || (i == 8 && j == 3) || (i == 5 && j == 10) || (i == 10 && j
                == 5));
        }
    }
}

/// What the migration table gives back of a written migration: reading the
/// row written for `m`, first among readable rows (with the revision the
/// database assigned, and its errors written as JSON), gives `m` back, field
/// by field, where serde_json reads the JSON of the errors back as the same
/// strings. On SQLite, where points in time are stored as milliseconds, this
/// holds for start times at or after the UNIX epoch with millisecond
/// precision that chrono accepts.
pub proof fn lemma_written_migration_reads_back(
    family: SqlFamily,
    m: MigrationRecord,
    revision: i64,
    errors_json: String,
    rs: ResultSet,
)
    requires
        rs.rows@.len() >= 1,
        rs.columns@.len() == 11,
        forall|k: int| 0 <= k < 11 ==> (#[trigger] rs.columns@[k])@ == migration_column_names()[k],
        errors_json@ == json_of_string_list(string_views(m.errors@)),
        json_string_list(errors_json@) == Some(string_views(m.errors@)),
        rs.rows@[0]@ == written_row(family, m, revision, errors_json),
        forall|i: int| 1 <= i < rs.rows@.len() ==> row_readable(rs, i),
        revision >= 0,
        m.applied <= i64::MAX,
        m.rolled_back <= i64::MAX,
        m.finished_at is None,
        storable(m.started_at),
        family == SqlFamily::Sqlite ==> {
            &&& m.started_at.secs >= 0
            &&& m.started_at.nanos < 1_000_000_000
            &&& m.started_at.nanos % 1_000_000 == 0
            &&& chrono_accepts_timestamp(m.started_at.secs, m.started_at.nanos)
        },
    ensures
        rows_readable(rs),
        forall|r: MigrationRecord|
            row_converts(rs, 0, r) ==> {
                &&& r.name == m.name
                &&& r.revision == revision as usize
                &&& r.datamodel == m.datamodel
                &&& r.status == m.status
                &&& r.applied == m.applied
                &&& r.rolled_back == m.rolled_back
                &&& r.datamodel_steps == m.datamodel_steps
                &&& r.database_migration == m.database_migration
                &&& string_views(r.errors@) == string_views(m.errors@)
                &&& r.started_at == m.started_at
                &&& r.finished_at is None
            },
{
    lemma_column_names_distinct();
    let names = migration_column_names();
    assert forall|k: int| 0 <= k < 11 implies column_position(rs.columns@, names[k]) == Some(k) by {
        assert forall|j: int| 0 <= j < k implies (#[trigger] rs.columns@[j])@ != names[k] by {
            assert(rs.columns@[j]@ == names[j]);
        }
        lemma_column_position_at(rs.columns@, names[k], k);
    }
    let row = rs.rows@[0]@;
    assert(cell(rs, 0, names[9]) == Some(row[9]));
    if family == SqlFamily::Sqlite {
        lemma_sqlite_datetime_round_trip(m.started_at);
    }
    assert(row_readable(rs, 0));
    assert forall|r: MigrationRecord| row_converts(rs, 0, r) implies r.started_at == m.started_at by {
        if family == SqlFamily::Sqlite {
            lemma_sqlite_datetime_round_trip(m.started_at);
        }
    }
}

/// A migration created and then looked up by name reads back as created.
/// The insert of `m` (whose revision was `revision_before`) gave `outcome`,
/// from which `created_revision` reads the new revision; the lookup by name
/// (`by_name_query`, newest revision first) gave `rs`, whose first row is the
/// row written for `m` with that revision. Then the first migration read from
/// `rs` is `m` with the new revision, under the same conditions on the
/// errors' JSON and the start time as `lemma_written_migration_reads_back`.
pub proof fn lemma_created_migration_found_by_name(
    family: SqlFamily,
    m: MigrationRecord,
    revision_before: usize,
    outcome: InsertOutcome,
    errors_json: String,
    rs: ResultSet,
)
    requires
        insert_outcome_readable(family, outcome),
        created_revision_spec(revision_before, outcome) <= i64::MAX,
        rs.rows@.len() >= 1,
        rs.columns@.len() == 11,
        forall|k: int| 0 <= k < 11 ==> (#[trigger] rs.columns@[k])@ == migration_column_names()[k],
        errors_json@ == json_of_string_list(string_views(m.errors@)),
        json_string_list(errors_json@) == Some(string_views(m.errors@)),
        rs.rows@[0]@ == written_row(
            family,
            m,
            created_revision_spec(revision_before, outcome) as i64,
            errors_json,
        ),
        forall|i: int| 1 <= i < rs.rows@.len() ==> row_readable(rs, i),
        m.applied <= i64::MAX,
        m.rolled_back <= i64::MAX,
        m.finished_at is None,
        storable(m.started_at),
        family == SqlFamily::Sqlite ==> {
            &&& m.started_at.secs >= 0
            &&& m.started_at.nanos < 1_000_000_000
            &&& m.started_at.nanos % 1_000_000 == 0
            &&& chrono_accepts_timestamp(m.started_at.secs, m.started_at.nanos)
        },
    ensures
        rows_readable(rs),
        forall|r: MigrationRecord|
            row_converts(rs, 0, r) ==> {
                &&& r.name == m.name
                &&& r.revision == created_revision_spec(revision_before, outcome)
                &&& r.datamodel == m.datamodel
                &&& r.status == m.status
                &&& r.applied == m.applied
                &&& r.rolled_back == m.rolled_back
                &&& r.datamodel_steps == m.datamodel_steps
                &&& r.database_migration == m.database_migration
                &&& string_views(r.errors@) == string_views(m.errors@)
                &&& r.started_at == m.started_at
                &&& r.finished_at is None
            },
{
    let rev = created_revision_spec(revision_before, outcome);
    lemma_written_migration_reads_back(family, m, rev as i64, errors_json, rs);
}

/// The dates of a migration read back as stored: a null finish date reads
/// back as unfinished, and a finish or start date stored as a date and time
/// `d` reads back as `d`; one stored as a millisecond timestamp reads back as
/// the seconds and nanoseconds it splits into.
pub proof fn lemma_row_dates_read_back(rs: ResultSet, i: int, r: MigrationRecord)
    requires
        row_converts(rs, i, r),
    ensures
        match cell(rs, i, FINISHED_AT_COLUMN@).unwrap() {
            DbValue::Null => r.finished_at is None,
            DbValue::DateTime(d) => r.finished_at == Some(d),
            DbValue::Integer(x) => r.finished_at matches Some(d) && d.secs == timestamp_parts(x).0
                && d.nanos == timestamp_parts(x).1,
            _ => false,
        },
        match cell(rs, i, STARTED_AT_COLUMN@).unwrap() {
            DbValue::DateTime(d) => r.started_at == d,
            DbValue::Integer(x) => r.started_at.secs == timestamp_parts(x).0 && r.started_at.nanos
                == timestamp_parts(x).1,
            _ => false,
        },
{
}

/// A finish date written as `convert_datetime` stores it reads back as the
/// same point in time: on PostgreSQL and MySQL always; on SQLite for points
/// in time at or after the UNIX epoch with millisecond precision.
pub proof fn lemma_finished_date_round_trip(
    family: SqlFamily,
    d: UtcDateTime,
    rs: ResultSet,
    i: int,
    r: MigrationRecord,
)
    requires
        storable(d),
        family == SqlFamily::Sqlite ==> d.secs >= 0 && d.nanos < 1_000_000_000 && d.nanos
            % 1_000_000 == 0,
        cell(rs, i, FINISHED_AT_COLUMN@) == Some(stored_datetime(family, d)),
        row_converts(rs, i, r),
    ensures
        r.finished_at == Some(d),
{
    lemma_row_dates_read_back(rs, i, r);
    if family == SqlFamily::Sqlite {
        lemma_sqlite_datetime_round_trip(d);
    }
}

/// The values that `insert_values` writes for `m` are, column by column, the
/// row written for `m` after its revision: each value stands under the column
/// of the field it holds. So the inserted row, with the revision the database
/// assigned, reads back as `m` (under the conditions of
/// `lemma_written_migration_reads_back`).
pub proof fn lemma_inserted_migration_reads_back(
    family: SqlFamily,
    m: MigrationRecord,
    revision: i64,
    errors_json: String,
    rs: ResultSet,
)
    requires
        rs.rows@.len() >= 1,
        rs.columns@.len() == 11,
        forall|k: int| 0 <= k < 11 ==> (#[trigger] rs.columns@[k])@ == migration_column_names()[k],
        rs.rows@[0]@.len() == 11,
        rs.rows@[0]@[0] == DbValue::Integer(revision),
        forall|k: int|
            0 <= k < 10 ==> rs.rows@[0]@[k + 1] == (#[trigger] insert_row_values(family, m, errors_json)[k]).1,
        errors_json@ == json_of_string_list(string_views(m.errors@)),
        json_string_list(errors_json@) == Some(string_views(m.errors@)),
        forall|i: int| 1 <= i < rs.rows@.len() ==> row_readable(rs, i),
        revision >= 0,
        m.applied <= i64::MAX,
        m.rolled_back <= i64::MAX,
        m.finished_at is None,
        storable(m.started_at),
        family == SqlFamily::Sqlite ==> {
            &&& m.started_at.secs >= 0
            &&& m.started_at.nanos < 1_000_000_000
            &&& m.started_at.nanos % 1_000_000 == 0
            &&& chrono_accepts_timestamp(m.started_at.secs, m.started_at.nanos)
        },
    ensures
        forall|k: int|
            0 <= k < 10 ==> (#[trigger] insert_row_values(family, m, errors_json)[k]).0@
                == migration_column_names()[k + 1] && insert_row_values(family, m, errors_json)[k].1
                == written_row(family, m, revision, errors_json)[k + 1],
        rows_readable(rs),
        forall|r: MigrationRecord|
            row_converts(rs, 0, r) ==> {
                &&& r.name == m.name
                &&& r.revision == revision as usize
                &&& r.datamodel == m.datamodel
                &&& r.status == m.status
                &&& r.applied == m.applied
                &&& r.rolled_back == m.rolled_back
                &&& r.datamodel_steps == m.datamodel_steps
                &&& r.database_migration == m.database_migration
                &&& string_views(r.errors@) == string_views(m.errors@)
                &&& r.started_at == m.started_at
                &&& r.finished_at is None
            },
{
    let vals = insert_row_values(family, m, errors_json);
    let row = written_row(family, m, revision, errors_json);
    assert forall|k: int| 0 <= k < 10 implies (#[trigger] vals[k]).0@ == migration_column_names()[k + 1]
        && vals[k].1 == row[k + 1] by {}
    assert forall|k: int| 0 <= k < 11 implies rs.rows@[0]@[k] == row[k] by {
        if k > 0 {
            assert(rs.rows@[0]@[(k - 1) + 1] == vals[k - 1].1);
        }
    }
    assert(rs.rows@[0]@ =~= row);
    lemma_written_migration_reads_back(family, m, revision, errors_json, rs);
}

} // verus!
