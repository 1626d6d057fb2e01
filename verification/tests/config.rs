use technopolis::config::{
    connection_params, resolve_config, resolve_var, ConfigError, ConfigVar, ConnectionConfig,
};

fn val(s: &str) -> Option<String> {
    Some(String::from(s))
}

#[test]
fn resolve_all_present_builds_config() {
    let r = resolve_config(val("db.local"), val("admin"), val("SECRET-REDACTED"), val("town"));
    assert_eq!(
        r,
        Ok(ConnectionConfig {
            host: String::from("db.local"),
            user: String::from("admin"),
            password: String::from("SECRET-REDACTED"),
            database_name: String::from("town"),
        })
    );
}

#[test]
fn resolve_missing_password_fails_naming_it() {
    let r = resolve_config(val("db.local"), val("admin"), None, val("town"));
    assert_eq!(r, Err(ConfigError::MissingVariable(ConfigVar::Passwd)));
    let e = r.unwrap_err();
    assert_eq!(e.var().env_name(), "TECHNOPOLIS_POSTGRES_PASSWD");
    assert_eq!(
        e.message(),
        "Environment \"TECHNOPOLIS_POSTGRES_PASSWD\" is not set!"
    );
}

#[test]
fn resolve_reports_first_missing_variable() {
    let r = resolve_config(None, None, None, None);
    assert_eq!(r, Err(ConfigError::MissingVariable(ConfigVar::Host)));
    let r = resolve_config(val("h"), None, None, None);
    assert_eq!(r, Err(ConfigError::MissingVariable(ConfigVar::User)));
    let r = resolve_config(val("h"), val("u"), val("p"), None);
    assert_eq!(r, Err(ConfigError::MissingVariable(ConfigVar::Dbname)));
}

#[test]
fn env_names_follow_the_convention() {
    assert_eq!(ConfigVar::Host.env_name(), "TECHNOPOLIS_POSTGRES_HOST");
    assert_eq!(ConfigVar::User.env_name(), "TECHNOPOLIS_POSTGRES_USER");
    assert_eq!(ConfigVar::Passwd.env_name(), "TECHNOPOLIS_POSTGRES_PASSWD");
    assert_eq!(ConfigVar::Dbname.env_name(), "TECHNOPOLIS_POSTGRES_DBNAME");
}

#[test]
fn live_environment_wins_over_file_default() {
    assert_eq!(
        resolve_var(val("from-file"), val("from-env")),
        val("from-env")
    );
}

#[test]
fn file_default_fills_in_for_absent_live_value() {
    assert_eq!(resolve_var(val("from-file"), None), val("from-file"));
    assert_eq!(resolve_var(None, None), None);
}

#[test]
fn connection_params_renders_all_four_fields() {
    let c = ConnectionConfig {
        host: String::from("db.local"),
        user: String::from("admin"),
        password: String::from("SECRET-REDACTED"),
        database_name: String::from("town"),
    };
    assert_eq!(
        connection_params(&c),
        "host=db.local user=admin password=SECRET-REDACTED dbname=town"
    );
}
