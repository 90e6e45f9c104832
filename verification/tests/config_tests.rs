use bank_query::cli::{Cli, Commands};
use bank_query::config::{config_path, Config, ConfigFile};

#[test]
fn default_config() {
    let c = Config::default();
    assert_eq!(c.admin_password, "admin123");
    assert_eq!(c.port, 10119);
}

#[test]
fn config_path_from_environment_or_default() {
    assert_eq!(config_path(None), "config.toml");
    assert_eq!(config_path(Some("/etc/bank_query/config.toml".to_string())), "/etc/bank_query/config.toml");
}

#[test]
fn missing_config_is_default_and_written() {
    let l = Config::resolve(ConfigFile::Missing);
    assert_eq!(l.config, Config::default());
    assert!(l.write_back);
    assert!(!l.warn);
}

#[test]
fn invalid_config_is_default_with_warning() {
    let l = Config::resolve(ConfigFile::Invalid);
    assert_eq!(l.config, Config::default());
    assert!(!l.write_back);
    assert!(l.warn);
}

#[test]
fn valid_config_is_kept() {
    let c = Config { admin_password: "s3cret".to_string(), port: 8080 };
    let l = Config::resolve(ConfigFile::Valid(c.clone()));
    assert_eq!(l.config, c);
    assert!(!l.write_back);
    assert!(!l.warn);
}

#[test]
fn set_password_then_verify() {
    let mut c = Config::default();
    assert!(c.password_matches("admin123"));
    c.set_password("新密码");
    assert!(c.password_matches("新密码"));
    assert!(!c.password_matches("admin123"));
    assert!(!c.password_matches(""));
    assert_eq!(c.port, 10119);
}

#[test]
fn listen_port_prefers_environment() {
    let c = Config::default();
    assert_eq!(c.listen_port(None), 10119);
    assert_eq!(c.listen_port(Some("8080".to_string())), 8080);
    assert_eq!(c.listen_port(Some("+8081".to_string())), 8081);
    assert_eq!(c.listen_port(Some("eighty".to_string())), 10119);
    assert_eq!(c.listen_port(Some("70000".to_string())), 10119);
    assert_eq!(c.listen_port(Some("".to_string())), 10119);
}

#[test]
fn command_defaults_to_server() {
    assert_eq!(Cli { command: None }.command_to_run(), Commands::Server);
    assert_eq!(Cli { command: Some(Commands::Clear) }.command_to_run(), Commands::Clear);
    let set = Commands::SetPassword { password: "p".to_string() };
    assert_eq!(Cli { command: Some(set.clone()) }.command_to_run(), set);
}

#[test]
fn stored_config_without_port_uses_default_port() {
    let c = Config::from_stored("admin123".to_string(), None);
    assert_eq!(c, Config::default());
    let c = Config::from_stored("pw".to_string(), Some(8080));
    assert_eq!(c.admin_password, "pw");
    assert_eq!(c.port, 8080);
}
