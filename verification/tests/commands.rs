use migration_engine::commands::CalculateDatabaseStepsCommand;
use migration_engine::destructive::{DestructiveChangeDiagnostics, MigrationError, MigrationWarning};
use migration_engine::commands::{
    ApplyMigrationCommand, ApplyMigrationInput, ApplyPath, UnapplyMigrationCommand, UnapplyMigrationInput,
};

fn apply(id: &str, force: Option<bool>) -> Box<ApplyMigrationCommand> {
    ApplyMigrationCommand::new(ApplyMigrationInput { migration_id: id.to_string(), steps: vec![], force })
}

#[test]
fn watch_migrations_are_recognised() {
    assert!(apply("watch-20190701", None).input.is_watch_migration());
    assert!(!apply("20190701-init", None).input.is_watch_migration());
    assert!(!apply("wat", None).input.is_watch_migration());
}

#[test]
fn leaving_watch_mode() {
    assert_eq!(apply("init", None).apply_path(Some(true)), ApplyPath::TransitionOutOfWatchMode);
    assert_eq!(apply("watch-2", None).apply_path(Some(true)), ApplyPath::Normal);
    assert_eq!(apply("init", None).apply_path(Some(false)), ApplyPath::Normal);
    assert_eq!(apply("init", None).apply_path(None), ApplyPath::Normal);
}

#[test]
fn warnings_block_unless_forced() {
    assert!(apply("m", None).should_apply(false));
    assert!(!apply("m", None).should_apply(true));
    assert!(!apply("m", Some(false)).should_apply(true));
    assert!(apply("m", Some(true)).should_apply(true));
}

#[test]
fn unapply_reports() {
    let cmd = UnapplyMigrationCommand::new(UnapplyMigrationInput {});
    let out = cmd.output(None);
    assert_eq!(out.rolled_back, "not-applicable");
    assert_eq!(out.active, None);
    assert_eq!(out.errors, vec!["There is no last migration that can be rolled back.".to_string()]);
    let out = cmd.output(Some(("m2".to_string(), Some("m1".to_string()))));
    assert_eq!(out.rolled_back, "m2");
    assert_eq!(out.active, Some("m1".to_string()));
    assert!(out.errors.is_empty());
}


fn diagnostics() -> DestructiveChangeDiagnostics {
    DestructiveChangeDiagnostics {
        errors: vec![MigrationError { tpe: "t".to_string(), description: "bad".to_string(), field: None }],
        warnings: vec![MigrationWarning { description: "careful".to_string() }],
    }
}

#[test]
fn apply_reports_errors_and_warnings() {
    let out = ApplyMigrationCommand::output(
        "model A {}".to_string(),
        vec![serde_json::Value::Bool(true)],
        vec![],
        diagnostics(),
    );
    assert_eq!(out.datamodel, "model A {}");
    assert_eq!(out.datamodel_steps.len(), 1);
    assert_eq!(out.errors.len(), 1);
    assert_eq!(out.warnings[0].description, "careful");
    assert!(out.general_errors.is_empty());
}

#[test]
fn calculation_reports_only_warnings() {
    let out = CalculateDatabaseStepsCommand::output("m".to_string(), vec![], vec![], diagnostics());
    assert!(out.errors.is_empty());
    assert_eq!(out.warnings.len(), 1);
}
