//! The decisions of the migration commands: whether an apply leaves watch
//! mode, whether it goes ahead despite warnings, and what an unapply reports.

use vstd::prelude::*;
use vstd::string::*;
use crate::destructive::{DestructiveChangeDiagnostics, MigrationError, MigrationWarning};
use crate::text::str_starts_with;

verus! {

/// The prefix of the ids of migrations made in watch mode.
pub open spec fn is_watch_id(id: Seq<char>) -> bool {
    "watch"@.len() <= id.len() && id.subrange(0, "watch"@.len() as int) == "watch"@
}

/// The input of the apply command: the migration's id, its datamodel steps
/// (as JSON), and whether to apply it despite warnings.
pub struct ApplyMigrationInput {
    pub migration_id: String,
    pub steps: Vec<serde_json::Value>,
    pub force: Option<bool>,
}

impl ApplyMigrationInput {
    /// Whether the migration was made in watch mode: its id begins with `watch`.
    pub fn is_watch_migration(&self) -> (res: bool)
        ensures
            res == is_watch_id(self.migration_id@),
    {
        str_starts_with(self.migration_id.as_str(), "watch")
    }
}

/// How the apply command computes the datamodel to migrate to.
#[derive(Debug, Clone, Copy, PartialEq, Eq, Structural)]
pub enum ApplyPath {
    /// From the last datamodel made outside watch mode (the watch migrations
    /// are folded into this one).
    TransitionOutOfWatchMode,
    /// From the current datamodel.
    Normal,
}

/// The apply command.
pub struct ApplyMigrationCommand {
    pub input: ApplyMigrationInput,
}

impl ApplyMigrationCommand {
    /// The apply command for an input.
    pub fn new(input: ApplyMigrationInput) -> (res: Box<ApplyMigrationCommand>)
        ensures
            res.input == input,
    {
        Box::new(ApplyMigrationCommand { input })
    }

    /// How to compute the next datamodel, given whether the last applied
    /// migration (if any) was a watch migration: leaving watch mode when the
    /// last migration was one and this one is not, else normally.
    pub fn apply_path(&self, last_migration_is_watch: Option<bool>) -> (res: ApplyPath)
        ensures
            res == if last_migration_is_watch == Some(true) && !is_watch_id(
                self.input.migration_id@,
            ) {
                ApplyPath::TransitionOutOfWatchMode
            } else {
                ApplyPath::Normal
            },
    {
        match last_migration_is_watch {
            Some(true) if !self.input.is_watch_migration() => ApplyPath::TransitionOutOfWatchMode,
            _ => ApplyPath::Normal,
        }
    }

    /// Whether the migration is saved and applied: when the destructive
    /// change check has no warnings, or the input forces it.
    pub fn should_apply(&self, has_warnings: bool) -> (res: bool)
        ensures
            res == (!has_warnings || self.input.force == Some(true)),
    {
        match (has_warnings, self.input.force.unwrap_or(false)) {
            (false, _) | (true, true) => true,
            (true, false) => false,
        }
    }
}

/// The input of the unapply command (it has none).
pub struct UnapplyMigrationInput {}

/// What the unapply command reports: the migration it rolled back (or
/// `not-applicable`), the migration now active, and its errors.
#[derive(Debug)]
pub struct UnapplyMigrationOutput {
    pub rolled_back: String,
    pub active: Option<String>,
    pub errors: Vec<String>,
}

/// The unapply command.
pub struct UnapplyMigrationCommand {
    pub input: UnapplyMigrationInput,
}

impl UnapplyMigrationCommand {
    /// The unapply command for an input.
    pub fn new(input: UnapplyMigrationInput) -> (res: Box<UnapplyMigrationCommand>)
        ensures
            res.input == input,
    {
        Box::new(UnapplyMigrationCommand { input })
    }

    /// The report of the unapply command. `rolled_back` is `None` when there
    /// was no last migration, else the name of the migration that was rolled
    /// back and the name of the last migration after that (if any).
    pub fn output(&self, rolled_back: Option<(String, Option<String>)>) -> (res: UnapplyMigrationOutput)
        ensures
            match rolled_back {
                None => {
                    &&& res.rolled_back@ == "not-applicable"@
                    &&& res.active is None
                    &&& res.errors@.len() == 1
                    &&& res.errors@[0]@ == "There is no last migration that can be rolled back."@
                },
                Some((name, active)) => {
                    &&& res.rolled_back == name
                    &&& res.active == active
                    &&& res.errors@.len() == 0
                },
            },
    {
        match rolled_back {
            None => {
                let mut errors: Vec<String> = Vec::new();
                errors.push(String::from_str("There is no last migration that can be rolled back."));
                UnapplyMigrationOutput {
                    rolled_back: String::from_str("not-applicable"),
                    active: None,
                    errors,
                }
            },
            Some((name, active)) => UnapplyMigrationOutput {
                rolled_back: name,
                active,
                errors: Vec::new(),
            },
        }
    }
}

/// The input of the datamodel calculation: datamodel steps (as JSON).
pub struct CalculateDatamodelInput {
    pub steps: Vec<serde_json::Value>,
}

/// The result of the datamodel calculation: the datamodel, rendered.
#[derive(Debug)]
pub struct CalculateDatamodelOutput {
    pub datamodel: String,
}

/// The input of the database step calculation: the steps assumed applied
/// and the steps to apply (as JSON).
pub struct CalculateDatabaseStepsInput {
    pub assume_to_be_applied: Vec<serde_json::Value>,
    pub steps_to_apply: Vec<serde_json::Value>,
}

/// The datamodel calculation command.
pub struct CalculateDatamodelCommand {
    pub input: CalculateDatamodelInput,
}

impl CalculateDatamodelCommand {
    /// The datamodel calculation command for an input.
    pub fn new(input: CalculateDatamodelInput) -> (res: Box<CalculateDatamodelCommand>)
        ensures
            res.input == input,
    {
        Box::new(CalculateDatamodelCommand { input })
    }
}

/// The database step calculation command.
pub struct CalculateDatabaseStepsCommand {
    pub input: CalculateDatabaseStepsInput,
}

impl CalculateDatabaseStepsCommand {
    /// The database step calculation command for an input.
    pub fn new(input: CalculateDatabaseStepsInput) -> (res: Box<CalculateDatabaseStepsCommand>)
        ensures
            res.input == input,
    {
        Box::new(CalculateDatabaseStepsCommand { input })
    }
}

/// The reset command (its input, any JSON value, is ignored).
pub struct ResetCommand;

impl ResetCommand {
    /// The reset command.
    pub fn new(_input: serde_json::Value) -> (res: Box<ResetCommand>) {
        Box::new(ResetCommand)
    }
}

/// What the apply and database step calculation commands report: the
/// datamodel after the steps (rendered), the datamodel steps, the database
/// steps (as JSON), and the errors and warnings found.
pub struct MigrationStepsResultOutput {
    pub datamodel: String,
    pub datamodel_steps: Vec<serde_json::Value>,
    pub database_steps: Vec<serde_json::Value>,
    pub errors: Vec<MigrationError>,
    pub warnings: Vec<MigrationWarning>,
    pub general_errors: Vec<String>,
}

impl ApplyMigrationCommand {
    /// The report of the apply command: the errors and warnings of the
    /// destructive change check, and no general errors.
    pub fn output(
        datamodel: String,
        datamodel_steps: Vec<serde_json::Value>,
        database_steps: Vec<serde_json::Value>,
        diagnostics: DestructiveChangeDiagnostics,
    ) -> (res: MigrationStepsResultOutput)
        ensures
            res.datamodel == datamodel,
            res.datamodel_steps == datamodel_steps,
            res.database_steps == database_steps,
            res.errors == diagnostics.errors,
            res.warnings == diagnostics.warnings,
            res.general_errors@.len() == 0,
    {
        MigrationStepsResultOutput {
            datamodel,
            datamodel_steps,
            database_steps,
            errors: diagnostics.errors,
            warnings: diagnostics.warnings,
            general_errors: Vec::new(),
        }
    }
}

impl CalculateDatabaseStepsCommand {
    /// The report of the database step calculation: the warnings of the
    /// destructive change check, but none of its errors, and no general errors.
    pub fn output(
        datamodel: String,
        steps_to_apply: Vec<serde_json::Value>,
        database_steps: Vec<serde_json::Value>,
        diagnostics: DestructiveChangeDiagnostics,
    ) -> (res: MigrationStepsResultOutput)
        ensures
            res.datamodel == datamodel,
            res.datamodel_steps == steps_to_apply,
            res.database_steps == database_steps,
            res.errors@.len() == 0,
            res.warnings == diagnostics.warnings,
            res.general_errors@.len() == 0,
    {
        MigrationStepsResultOutput {
            datamodel,
            datamodel_steps: steps_to_apply,
            database_steps,
            errors: Vec::new(),
            warnings: diagnostics.warnings,
            general_errors: Vec::new(),
        }
    }
}

} // verus!
