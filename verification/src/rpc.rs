//! The JSON-RPC interface of the engine: its commands and their method
//! names, and the choice of connector from the datasources of a schema.

use vstd::prelude::*;
use vstd::string::*;
use crate::connector::SqlFamily;

verus! {

/// The commands that the engine serves over JSON-RPC.
#[derive(Debug, Clone, Copy, PartialEq, Eq, Structural)]
pub enum RpcCommand {
    InferMigrationSteps,
    ListMigrations,
    MigrationProgress,
    ApplyMigration,
    UnapplyMigration,
    Reset,
    CalculateDatamodel,
    CalculateDatabaseSteps,
}

impl RpcCommand {
    /// The JSON-RPC method name of a command.
    pub open spec fn spec_name(self) -> Seq<char> {
        match self {
            RpcCommand::InferMigrationSteps => "inferMigrationSteps"@,
            RpcCommand::ListMigrations => "listMigrations"@,
            RpcCommand::MigrationProgress => "migrationProgress"@,
            RpcCommand::ApplyMigration => "applyMigration"@,
            RpcCommand::UnapplyMigration => "unapplyMigration"@,
            RpcCommand::Reset => "reset"@,
            RpcCommand::CalculateDatamodel => "calculateDatamodel"@,
            RpcCommand::CalculateDatabaseSteps => "calculateDatabaseSteps"@,
        }
    }

    /// The JSON-RPC method name of a command.
    pub fn name(&self) -> (res: &'static str)
        ensures
            res@ == self.spec_name(),
    {
        match self {
            RpcCommand::InferMigrationSteps => "inferMigrationSteps",
            RpcCommand::ListMigrations => "listMigrations",
            RpcCommand::MigrationProgress => "migrationProgress",
            RpcCommand::ApplyMigration => "applyMigration",
            RpcCommand::UnapplyMigration => "unapplyMigration",
            RpcCommand::Reset => "reset",
            RpcCommand::CalculateDatamodel => "calculateDatamodel",
            RpcCommand::CalculateDatabaseSteps => "calculateDatabaseSteps",
        }
    }
}

/// The commands that the engine serves, in the order in which their
/// handlers are registered.
pub open spec fn spec_available_commands() -> Seq<RpcCommand> {
    seq![
        RpcCommand::ApplyMigration,
        RpcCommand::InferMigrationSteps,
        RpcCommand::ListMigrations,
        RpcCommand::MigrationProgress,
        RpcCommand::UnapplyMigration,
        RpcCommand::Reset,
        RpcCommand::CalculateDatamodel,
        RpcCommand::CalculateDatabaseSteps,
    ]
}

/// The commands that the engine serves.
pub fn available_commands() -> (res: Vec<RpcCommand>)
    ensures
        res@ == spec_available_commands(),
{
    let mut v: Vec<RpcCommand> = Vec::new();
    v.push(RpcCommand::ApplyMigration);
    v.push(RpcCommand::InferMigrationSteps);
    v.push(RpcCommand::ListMigrations);
    v.push(RpcCommand::MigrationProgress);
    v.push(RpcCommand::UnapplyMigration);
    v.push(RpcCommand::Reset);
    v.push(RpcCommand::CalculateDatamodel);
    v.push(RpcCommand::CalculateDatabaseSteps);
    assert(v@ =~= spec_available_commands());
    v
}

/// Every command is served, exactly once.
pub proof fn lemma_every_command_available(c: RpcCommand)
    ensures
        spec_available_commands().contains(c),
        spec_available_commands().no_duplicates(),
{
    let s = spec_available_commands();
    match c {
        RpcCommand::ApplyMigration => assert(s[0] == c),
        RpcCommand::InferMigrationSteps => assert(s[1] == c),
        RpcCommand::ListMigrations => assert(s[2] == c),
        RpcCommand::MigrationProgress => assert(s[3] == c),
        RpcCommand::UnapplyMigration => assert(s[4] == c),
        RpcCommand::Reset => assert(s[5] == c),
        RpcCommand::CalculateDatamodel => assert(s[6] == c),
        RpcCommand::CalculateDatabaseSteps => assert(s[7] == c),
    }
}

/// Distinct commands have distinct method names, so a method name routes to
/// one command.
pub proof fn lemma_command_names_distinct(a: RpcCommand, b: RpcCommand)
    ensures
        a != b ==> a.spec_name() != b.spec_name(),
{
    reveal_strlit("inferMigrationSteps");
    reveal_strlit("listMigrations");
    reveal_strlit("migrationProgress");
    reveal_strlit("applyMigration");
    reveal_strlit("unapplyMigration");
    reveal_strlit("reset");
    reveal_strlit("calculateDatamodel");
    reveal_strlit("calculateDatabaseSteps");
    if a != b && a.spec_name().len() == b.spec_name().len() {
        assert(a.spec_name()[0] != b.spec_name()[0]);
    }
}

/// A datasource of a schema: its connector type and URL.
#[derive(Debug)]
pub struct Datasource {
    pub connector_type: String,
    pub url: String,
}

/// The connector to open: its family, its URL, and whether to open a pool of
/// connections (PostgreSQL and MySQL always are; SQLite has no pool).
#[derive(Debug)]
pub struct ConnectorChoice {
    pub family: SqlFamily,
    pub url: String,
    pub pooled: bool,
}

/// Errors of the engine's commands.
#[derive(Debug)]
pub enum CommandError {
    /// The datamodel has errors; `code` classifies them.
    DataModelErrors { code: u32, errors: Vec<String> },
}

/// The first datasource has a connector type that the engine supports, if
/// there is one.
pub open spec fn datasources_supported(datasources: Seq<Datasource>) -> bool {
    datasources.len() > 0 ==> SqlFamily::spec_from_connector_type(datasources[0].connector_type@) is Some
}

/// The connector for the first datasource of a schema, or, without a
/// datasource, a datamodel error with code 1000.
pub fn select_connector(datasources: &Vec<Datasource>) -> (res: Result<ConnectorChoice, CommandError>)
    requires
        datasources_supported(datasources@),
    ensures
        datasources@.len() == 0 <==> res is Err,
        res matches Err(CommandError::DataModelErrors { code, errors }) ==> code == 1000
            && errors@.len() == 1 && errors@[0]@ == "There is no datasource in the configuration."@,
        res matches Ok(c) ==> {
            &&& Some(c.family) == SqlFamily::spec_from_connector_type(datasources@[0].connector_type@)
            &&& c.url == datasources@[0].url
            &&& c.pooled == (c.family != SqlFamily::Sqlite)
        },
{
    if datasources.len() == 0 {
        let mut errors: Vec<String> = Vec::new();
        errors.push(String::from_str("There is no datasource in the configuration."));
        return Err(CommandError::DataModelErrors { code: 1000, errors });
    }
    let source = &datasources[0];
    let family = SqlFamily::from_connector_type(source.connector_type.as_str()).unwrap();
    Ok(ConnectorChoice { family, url: source.url.clone(), pooled: family != SqlFamily::Sqlite })
}

} // verus!
