use migration_engine::connector::SqlFamily;
use migration_engine::rpc::{available_commands, select_connector, CommandError, Datasource, RpcCommand};

#[test]
fn command_names() {
    assert_eq!(RpcCommand::InferMigrationSteps.name(), "inferMigrationSteps");
    assert_eq!(RpcCommand::CalculateDatabaseSteps.name(), "calculateDatabaseSteps");
    assert_eq!(RpcCommand::Reset.name(), "reset");
}

#[test]
fn all_commands_available_once() {
    let cmds = available_commands();
    assert_eq!(cmds.len(), 8);
    assert_eq!(cmds[0], RpcCommand::ApplyMigration);
    let mut names: Vec<&str> = cmds.iter().map(|c| c.name()).collect();
    names.sort();
    names.dedup();
    assert_eq!(names.len(), 8);
}

fn ds(t: &str, url: &str) -> Datasource {
    Datasource { connector_type: t.to_string(), url: url.to_string() }
}

#[test]
fn connector_from_first_datasource() {
    let c = select_connector(&vec![ds("mysql", "mysql://x"), ds("sqlite", "file:y")]).ok().unwrap();
    assert_eq!(c.family, SqlFamily::Mysql);
    assert_eq!(c.url, "mysql://x");
    assert!(c.pooled);
    let c = select_connector(&vec![ds("sqlite", "file:dev.db")]).ok().unwrap();
    assert_eq!(c.family, SqlFamily::Sqlite);
    assert!(!c.pooled);
}

#[test]
fn no_datasource_is_a_datamodel_error() {
    match select_connector(&vec![]) {
        Err(CommandError::DataModelErrors { code, errors }) => {
            assert_eq!(code, 1000);
            assert_eq!(errors, vec!["There is no datasource in the configuration.".to_string()]);
        }
        Ok(_) => panic!("expected an error"),
    }
}
