use migration_engine::text::i64_to_decimal;
use migration_engine::user_facing_errors::{render_error, Error, KnownError, UserFacingError};

struct TableMissing {
    table: String,
}

impl UserFacingError for TableMissing {
    const ERROR_CODE: &'static str = "P1234";

    fn message(&self) -> String {
        format!("Table {} is missing", self.table)
    }
}

#[test]
fn known_error_takes_code_and_message() {
    let e = KnownError::new(TableMissing { table: "users".to_string() }, serde_json::Value::String("users".to_string()));
    assert_eq!(e.error_code, "P1234");
    assert_eq!(e.message, "Table users is missing");
    assert_eq!(e.meta, serde_json::Value::String("users".to_string()));
}

#[test]
fn rendered_errors_are_unknown() {
    match render_error("connection refused".to_string()) {
        Error::Unknown(u) => {
            assert_eq!(u.message, "connection refused");
            assert_eq!(u.backtrace, None);
        }
        Error::Known(_) => panic!("expected an unknown error"),
    }
}

#[test]
fn decimal_rendering() {
    assert_eq!(i64_to_decimal(0), "0");
    assert_eq!(i64_to_decimal(907), "907");
    assert_eq!(i64_to_decimal(-42), "-42");
    assert_eq!(i64_to_decimal(i64::MIN), "-9223372036854775808");
    assert_eq!(i64_to_decimal(i64::MAX), "9223372036854775807");
}
