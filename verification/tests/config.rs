use std::path::PathBuf;
use vigil::config::{
    default_degraded_threshold, default_log_level, default_offline_threshold,
    default_ping_interval, default_ping_timeout, default_recovery_threshold,
    default_retention_days, default_targets, Config, ConfigError, DatabaseConfig, Environment,
    LoggingConfig, MonitorConfig, TargetsConfig,
};

#[test]
fn test_default_config() {
    let config = Config::default();
    assert_eq!(config.monitor.ping_interval_ms, 1000);
    assert_eq!(config.monitor.degraded_threshold, 3);
    assert_eq!(config.targets.targets.len(), 2);
}

#[test]
fn test_environment_paths() {
    let dev = Environment::Development;
    let dev_path = dev.data_dir().unwrap();
    assert!(dev_path.to_string_lossy().contains("dev"));

    let prod = Environment::Production;
    let prod_path = prod.data_dir().unwrap();
    assert!(!prod_path.to_string_lossy().contains("dev"));
    assert!(!prod_path.to_string_lossy().contains("test"));
}

#[test]
fn test_environment_display() {
    assert_eq!(Environment::Production.to_string(), "production");
    assert_eq!(Environment::Development.to_string(), "development");
    assert_eq!(Environment::Test.to_string(), "test");
}

#[test]
fn environment_selected_by_a_setting() {
    assert_eq!(Environment::from_setting(Some("dev")), Environment::Development);
    assert_eq!(Environment::from_setting(Some("development")), Environment::Development);
    assert_eq!(Environment::from_setting(Some("test")), Environment::Test);
    assert_eq!(Environment::from_setting(Some("production")), Environment::Production);
    assert_eq!(Environment::from_setting(Some("Dev")), Environment::Production);
    assert_eq!(Environment::from_setting(Some("")), Environment::Production);
    assert_eq!(Environment::from_setting(None), Environment::Production);
    assert_eq!(Environment::default(), Environment::Production);
}

#[test]
fn environment_kinds() {
    assert!(!Environment::Production.is_dev());
    assert!(Environment::Development.is_dev());
    assert!(Environment::Test.is_dev());
}

#[test]
fn environment_directories_below_a_given_base() {
    let base = PathBuf::from("/data/vigil");
    assert_eq!(
        Environment::Production.data_dir_in(Some(base.clone())).unwrap(),
        PathBuf::from("/data/vigil")
    );
    assert_eq!(
        Environment::Development.data_dir_in(Some(base.clone())).unwrap(),
        PathBuf::from("/data/vigil/dev")
    );
    assert_eq!(
        Environment::Test.data_dir_in(Some(base.clone())).unwrap(),
        PathBuf::from("/data/vigil/test")
    );
    assert!(matches!(
        Environment::Test.data_dir_in(None),
        Err(ConfigError::NoConfigDir)
    ));
    assert_eq!(
        Environment::Development.file_in(Some(base.clone()), "config.toml").unwrap(),
        PathBuf::from("/data/vigil/dev/config.toml")
    );
    assert!(matches!(
        Environment::Production.file_in(None, "config.toml"),
        Err(ConfigError::NoConfigDir)
    ));
}

#[test]
fn environment_files() {
    let dir = Environment::Test.data_dir().unwrap();
    assert_eq!(Environment::Test.config_path().unwrap(), dir.join("config.toml"));
    assert_eq!(Environment::Test.database_path().unwrap(), dir.join("monitor.db"));
    assert_eq!(Environment::Test.log_path().unwrap(), dir.join("monitor.log"));
    let production = Environment::Production.data_dir().unwrap();
    assert_eq!(dir, production.join("test"));
    assert_eq!(Config::data_dir().unwrap(), production);
    assert_eq!(Config::config_path().unwrap(), production.join("config.toml"));
}

#[test]
fn configured_paths_win_over_those_of_the_environment() {
    let mut config = Config::default();
    let production = Environment::Production.data_dir().unwrap();
    assert_eq!(config.database_path().unwrap(), production.join("monitor.db"));
    assert_eq!(config.log_path().unwrap(), Some(production.join("monitor.log")));
    assert_eq!(
        config.database_path_for_env(&Environment::Development).unwrap(),
        production.join("dev").join("monitor.db")
    );
    assert_eq!(
        config.log_path_for_env(&Environment::Test).unwrap(),
        Some(production.join("test").join("monitor.log"))
    );

    config.database.path = Some(PathBuf::from("/tmp/own.db"));
    config.logging.file = Some(PathBuf::from("/tmp/own.log"));
    assert_eq!(config.database_path().unwrap(), PathBuf::from("/tmp/own.db"));
    assert_eq!(
        config.database_path_for_env(&Environment::Test).unwrap(),
        PathBuf::from("/tmp/own.db")
    );
    assert_eq!(config.log_path().unwrap(), Some(PathBuf::from("/tmp/own.log")));
    assert_eq!(
        config.log_path_for_env(&Environment::Development).unwrap(),
        Some(PathBuf::from("/tmp/own.log"))
    );
}

#[test]
fn defaults_one_by_one() {
    assert_eq!(default_ping_interval(), 1000);
    assert_eq!(default_ping_timeout(), 2000);
    assert_eq!(default_degraded_threshold(), 3);
    assert_eq!(default_offline_threshold(), 5);
    assert_eq!(default_recovery_threshold(), 2);
    assert_eq!(default_retention_days(), 90);
    assert_eq!(default_log_level(), "info");
    let targets = default_targets();
    assert_eq!(targets.len(), 2);
    assert_eq!(targets[0].name, "Google DNS");
    assert_eq!(targets[0].ip, "8.8.8.8");
    assert_eq!(targets[1].name, "Cloudflare");
    assert_eq!(targets[1].ip, "1.1.1.1");

    let monitor = MonitorConfig::default();
    assert_eq!(monitor.ping_timeout_ms, 2000);
    assert_eq!(monitor.offline_threshold, 5);
    assert_eq!(monitor.recovery_threshold, 2);
    let targets = TargetsConfig::default();
    assert!(targets.gateway.is_none());
    assert_eq!(targets.targets.len(), 2);
    let database = DatabaseConfig::default();
    assert!(database.path.is_none());
    assert_eq!(database.retention_days, 90);
    let logging = LoggingConfig::default();
    assert_eq!(logging.level, "info");
    assert!(logging.file.is_none());
}

#[test]
fn all_targets_put_the_gateway_first() {
    let mut config = Config::default();
    let targets = config.all_targets();
    assert_eq!(targets.len(), 2);
    assert_eq!(targets[0].ip, "8.8.8.8");

    config.targets.gateway = Some("192.168.1.1".to_string());
    let targets = config.all_targets();
    assert_eq!(targets.len(), 3);
    assert_eq!(targets[0].name, "Gateway");
    assert_eq!(targets[0].ip, "192.168.1.1");
    assert_eq!(targets[1].ip, "8.8.8.8");
    assert_eq!(targets[2].ip, "1.1.1.1");

    config.targets.targets.clear();
    let targets = config.all_targets();
    assert_eq!(targets.len(), 1);
    assert_eq!(targets[0].ip, "192.168.1.1");
}

#[test]
fn a_clone_of_the_configuration_is_the_same() {
    let mut config = Config::default();
    config.targets.gateway = Some("10.0.0.1".to_string());
    config.database.path = Some(PathBuf::from("/tmp/x.db"));
    config.logging.level = "debug".to_string();
    let copy = config.clone();
    assert_eq!(copy.monitor, config.monitor);
    assert_eq!(copy.targets.gateway, Some("10.0.0.1".to_string()));
    assert_eq!(copy.targets.targets.len(), 2);
    assert_eq!(copy.targets.targets[1].ip, "1.1.1.1");
    assert_eq!(copy.database.path, Some(PathBuf::from("/tmp/x.db")));
    assert_eq!(copy.logging.level, "debug");
}

#[test]
fn configuration_errors_as_sentences() {
    assert_eq!(
        ConfigError::ReadError("permission denied".to_string()).to_string(),
        "Failed to read config file: permission denied"
    );
    assert_eq!(
        ConfigError::ParseError("expected a table".to_string()).to_string(),
        "Failed to parse config file: expected a table"
    );
    assert_eq!(
        ConfigError::SerializeError("unsupported".to_string()).to_string(),
        "Failed to serialize config: unsupported"
    );
    assert_eq!(
        ConfigError::NoConfigDir.to_string(),
        "Could not determine config directory"
    );
}
