//! The monitor's settings and the places where it keeps its files.

use crate::models::{clone_targets, Target, TargetView};
use crate::text::same_text;
use std::path::PathBuf;
use vstd::prelude::*;

verus! {

/// `std::path::PathBuf`, a path of the file system. Nothing of its content is
/// known here.
#[verifier::external_type_specification]
#[verifier::external_body]
pub struct ExPathBuf(PathBuf);

/// The clone of a `PathBuf` is the same path.
pub assume_specification[ <PathBuf as Clone>::clone ](p: &PathBuf) -> (r: PathBuf)
    ensures
        r == *p,
;

/// What `Path::join` of the standard library returns for a base path and a
/// component given as text.
pub uninterp spec fn joined(base: PathBuf, component: Seq<char>) -> PathBuf;

/// Calls `Path::join`, which appends `component` to `base` as the platform
/// writes paths. The result depends on the two arguments alone.
#[verifier::external_body]
pub(crate) fn join_path(base: &PathBuf, component: &str) -> (r: PathBuf)
    ensures
        r == joined(*base, component@),
{
    base.join(component)
}

/// Calls `directories::ProjectDirs::from` and `ProjectDirs::data_dir`: the
/// directory that the platform assigns to the data of the named application
/// for the current user, or `None` where no home directory can be found.
/// The result depends on the user's environment, so nothing is claimed of it.
#[verifier::external_body]
fn project_data_dir(qualifier: &str, organization: &str, application: &str) -> (r: Option<PathBuf>) {
    match directories::ProjectDirs::from(qualifier, organization, application) {
        Some(dirs) => Some(dirs.data_dir().to_path_buf()),
        None => None,
    }
}

/// Why the configuration could not be had.
#[derive(Debug)]
pub enum ConfigError {
    /// The configuration file could not be read; the text says why.
    ReadError(String),
    /// The configuration file is not valid; the text says why.
    ParseError(String),
    /// The configuration could not be written down; the text says why.
    SerializeError(String),
    /// The platform names no directory for the application's data.
    NoConfigDir,
}

impl ConfigError {
    /// The error as a sentence.
    pub open spec fn message(self) -> Seq<char> {
        match self {
            ConfigError::ReadError(why) => "Failed to read config file: "@ + why@,
            ConfigError::ParseError(why) => "Failed to parse config file: "@ + why@,
            ConfigError::SerializeError(why) => "Failed to serialize config: "@ + why@,
            ConfigError::NoConfigDir => "Could not determine config directory"@,
        }
    }

    /// The error as a sentence.
    pub fn to_string(&self) -> (s: String)
        ensures
            s@ == self.message(),
    {
        match self {
            ConfigError::ReadError(why) => {
                let mut s = "Failed to read config file: ".to_owned();
                s.append(why.as_str());
                s
            },
            ConfigError::ParseError(why) => {
                let mut s = "Failed to parse config file: ".to_owned();
                s.append(why.as_str());
                s
            },
            ConfigError::SerializeError(why) => {
                let mut s = "Failed to serialize config: ".to_owned();
                s.append(why.as_str());
                s
            },
            ConfigError::NoConfigDir => "Could not determine config directory".to_owned(),
        }
    }
}

/// The surroundings in which the monitor runs. Each has its own files.
#[derive(Debug, Clone, Copy, PartialEq, Eq, Structural)]
pub enum Environment {
    Production,
    Development,
    Test,
}

impl Default for Environment {
    fn default() -> (r: Self)
        ensures
            r == Environment::Production,
    {
        Environment::Production
    }
}

impl Environment {
    /// The environment's name.
    pub open spec fn label(self) -> Seq<char> {
        match self {
            Environment::Production => "production"@,
            Environment::Development => "development"@,
            Environment::Test => "test"@,
        }
    }

    /// The environment that a setting selects: `development` or `dev`, `test`,
    /// and production for anything else or no setting at all.
    pub open spec fn selected_by(setting: Option<Seq<char>>) -> Environment {
        match setting {
            Some(s) => if s == "development"@ || s == "dev"@ {
                Environment::Development
            } else if s == "test"@ {
                Environment::Test
            } else {
                Environment::Production
            },
            None => Environment::Production,
        }
    }

    /// The directory below the application's data directory that holds the
    /// environment's files; production uses the data directory itself.
    pub open spec fn subdirectory(self) -> Option<Seq<char>> {
        match self {
            Environment::Production => None,
            Environment::Development => Some("dev"@),
            Environment::Test => Some("test"@),
        }
    }

    /// The environment's directory, given the application's data directory.
    pub open spec fn data_dir_under(self, base: Option<PathBuf>) -> Result<PathBuf, ConfigError> {
        match base {
            None => Err(ConfigError::NoConfigDir),
            Some(dir) => match self.subdirectory() {
                None => Ok(dir),
                Some(sub) => Ok(joined(dir, sub)),
            },
        }
    }

    /// The file `name` in the environment's directory, given the
    /// application's data directory.
    pub open spec fn file_under(self, base: Option<PathBuf>, name: Seq<char>) -> Result<
        PathBuf,
        ConfigError,
    > {
        match self.data_dir_under(base) {
            Ok(dir) => Ok(joined(dir, name)),
            Err(e) => Err(e),
        }
    }

    /// The environment that `setting` selects (see `selected_by`).
    pub fn from_setting(setting: Option<&str>) -> (r: Environment)
        ensures
            r == Environment::selected_by(
                match setting {
                    Some(s) => Some(s@),
                    None => None,
                },
            ),
    {
        match setting {
            Some(s) => {
                if same_text(s, "development") || same_text(s, "dev") {
                    Environment::Development
                } else if same_text(s, "test") {
                    Environment::Test
                } else {
                    Environment::Production
                }
            },
            None => Environment::Production,
        }
    }

    /// The environment's directory below `base`, the application's data
    /// directory; an error where there is none.
    pub fn data_dir_in(&self, base: Option<PathBuf>) -> (r: Result<PathBuf, ConfigError>)
        ensures
            r == self.data_dir_under(base),
    {
        match base {
            None => Err(ConfigError::NoConfigDir),
            Some(dir) => match self {
                Environment::Production => Ok(dir),
                Environment::Development => Ok(join_path(&dir, "dev")),
                Environment::Test => Ok(join_path(&dir, "test")),
            },
        }
    }

    /// The file `name` in the environment's directory below `base`.
    pub fn file_in(&self, base: Option<PathBuf>, name: &str) -> (r: Result<PathBuf, ConfigError>)
        ensures
            r == self.file_under(base, name@),
    {
        match self.data_dir_in(base) {
            Ok(dir) => Ok(join_path(&dir, name)),
            Err(e) => Err(e),
        }
    }

    /// The environment's directory. Which directory holds the application's
    /// data is for the platform and the user's environment to say.
    pub fn data_dir(&self) -> (r: Result<PathBuf, ConfigError>)
        ensures
            exists|base: Option<PathBuf>| r == self.data_dir_under(base),
    {
        self.data_dir_in(project_data_dir("ch", "kapptec", "vigil"))
    }

    /// The environment's configuration file.
    pub fn config_path(&self) -> (r: Result<PathBuf, ConfigError>)
        ensures
            exists|base: Option<PathBuf>| r == self.file_under(base, "config.toml"@),
    {
        self.file_in(project_data_dir("ch", "kapptec", "vigil"), "config.toml")
    }

    /// The environment's database.
    pub fn database_path(&self) -> (r: Result<PathBuf, ConfigError>)
        ensures
            exists|base: Option<PathBuf>| r == self.file_under(base, "monitor.db"@),
    {
        self.file_in(project_data_dir("ch", "kapptec", "vigil"), "monitor.db")
    }

    /// The environment's log file.
    pub fn log_path(&self) -> (r: Result<PathBuf, ConfigError>)
        ensures
            exists|base: Option<PathBuf>| r == self.file_under(base, "monitor.log"@),
    {
        self.file_in(project_data_dir("ch", "kapptec", "vigil"), "monitor.log")
    }

    /// Whether this is an environment for development or testing.
    pub fn is_dev(&self) -> (r: bool)
        ensures
            r == (*self != Environment::Production),
    {
        match self {
            Environment::Production => false,
            _ => true,
        }
    }

    /// The environment's name.
    pub fn to_string(&self) -> (s: String)
        ensures
            s@ == self.label(),
    {
        match self {
            Environment::Production => "production".to_owned(),
            Environment::Development => "development".to_owned(),
            Environment::Test => "test".to_owned(),
        }
    }
}

/// How often and how patiently the endpoints are probed, and after how many
/// failures or successes in a row the connectivity state changes.
#[derive(Debug, Clone, Copy, PartialEq, Eq, Structural)]
pub struct MonitorConfig {
    /// The time between two rounds of probes, in milliseconds.
    pub ping_interval_ms: u64,
    /// How long a probe may wait for its answer, in milliseconds.
    pub ping_timeout_ms: u64,
    /// The number of failing ticks in a row at which the state becomes
    /// degraded.
    pub degraded_threshold: u32,
    /// The number of failing ticks in a row at which the state becomes
    /// offline.
    pub offline_threshold: u32,
    /// The number of healthy ticks in a row at which the state becomes
    /// online again.
    pub recovery_threshold: u32,
}

/// The time between two rounds of probes where none is configured: a second.
pub fn default_ping_interval() -> (r: u64)
    ensures
        r == 1000,
{
    1000
}

/// The time a probe may wait for its answer where none is configured: two
/// seconds.
pub fn default_ping_timeout() -> (r: u64)
    ensures
        r == 2000,
{
    2000
}

/// The number of failing ticks in a row at which the state becomes degraded,
/// where none is configured.
pub fn default_degraded_threshold() -> (r: u32)
    ensures
        r == 3,
{
    3
}

/// The number of failing ticks in a row at which the state becomes offline,
/// where none is configured.
pub fn default_offline_threshold() -> (r: u32)
    ensures
        r == 5,
{
    5
}

/// The number of healthy ticks in a row at which the state becomes online
/// again, where none is configured.
pub fn default_recovery_threshold() -> (r: u32)
    ensures
        r == 2,
{
    2
}

impl Default for MonitorConfig {
    fn default() -> (r: Self)
        ensures
            r == (MonitorConfig {
                ping_interval_ms: 1000,
                ping_timeout_ms: 2000,
                degraded_threshold: 3,
                offline_threshold: 5,
                recovery_threshold: 2,
            }),
    {
        MonitorConfig {
            ping_interval_ms: default_ping_interval(),
            ping_timeout_ms: default_ping_timeout(),
            degraded_threshold: default_degraded_threshold(),
            offline_threshold: default_offline_threshold(),
            recovery_threshold: default_recovery_threshold(),
        }
    }
}

impl MonitorConfig {
    /// Whether every threshold is at least 1.
    pub open spec fn thresholds_positive(self) -> bool {
        self.degraded_threshold >= 1 && self.offline_threshold >= 1 && self.recovery_threshold
            >= 1
    }
}

/// The endpoints to probe.
#[derive(Debug)]
pub struct TargetsConfig {
    /// The address of the local gateway, where it is to be probed too.
    pub gateway: Option<String>,
    pub targets: Vec<Target>,
}

/// The endpoints that are probed when none are configured.
pub open spec fn default_target_views() -> Seq<TargetView> {
    seq![
        TargetView { name: "Google DNS"@, ip: "8.8.8.8"@ },
        TargetView { name: "Cloudflare"@, ip: "1.1.1.1"@ },
    ]
}

/// The endpoints that are probed where none are configured (see
/// `default_target_views`).
pub fn default_targets() -> (r: Vec<Target>)
    ensures
        r.deep_view() == default_target_views(),
{
    let mut r: Vec<Target> = Vec::new();
    r.push(Target::new("Google DNS", "8.8.8.8"));
    r.push(Target::new("Cloudflare", "1.1.1.1"));
    r
}

impl Clone for TargetsConfig {
    fn clone(&self) -> (r: Self)
        ensures
            r.gateway == self.gateway,
            r.targets@ == self.targets@,
    {
        TargetsConfig {
            gateway: match &self.gateway {
                Some(g) => Some(g.clone()),
                None => None,
            },
            targets: clone_targets(&self.targets),
        }
    }
}

impl Default for TargetsConfig {
    fn default() -> (r: Self)
        ensures
            r.gateway is None,
            r.targets.deep_view() == default_target_views(),
    {
        TargetsConfig { gateway: None, targets: default_targets() }
    }
}

/// Where the records are stored and for how long.
#[derive(Debug)]
pub struct DatabaseConfig {
    /// The database file, where it is not the environment's own.
    pub path: Option<PathBuf>,
    /// The number of days for which records are kept.
    pub retention_days: u32,
}

/// The number of days for which records are kept where none is configured.
pub fn default_retention_days() -> (r: u32)
    ensures
        r == 90,
{
    90
}

impl Clone for DatabaseConfig {
    fn clone(&self) -> (r: Self)
        ensures
            r == *self,
    {
        DatabaseConfig {
            path: match &self.path {
                Some(p) => Some(p.clone()),
                None => None,
            },
            retention_days: self.retention_days,
        }
    }
}

impl Default for DatabaseConfig {
    fn default() -> (r: Self)
        ensures
            r == (DatabaseConfig { path: None, retention_days: 90 }),
    {
        DatabaseConfig { path: None, retention_days: default_retention_days() }
    }
}

/// What is logged and where.
#[derive(Debug)]
pub struct LoggingConfig {
    /// The least severe level that is logged: trace, debug, info, warn or
    /// error.
    pub level: String,
    /// The log file, where it is not the environment's own.
    pub file: Option<PathBuf>,
}

/// The least severe level that is logged where none is configured.
pub fn default_log_level() -> (r: String)
    ensures
        r@ == "info"@,
{
    "info".to_owned()
}

impl Clone for LoggingConfig {
    fn clone(&self) -> (r: Self)
        ensures
            r == *self,
    {
        LoggingConfig {
            level: self.level.clone(),
            file: match &self.file {
                Some(p) => Some(p.clone()),
                None => None,
            },
        }
    }
}

impl Default for LoggingConfig {
    fn default() -> (r: Self)
        ensures
            r.level@ == "info"@,
            r.file is None,
    {
        LoggingConfig { level: default_log_level(), file: None }
    }
}

/// All settings of the monitor.
#[derive(Debug)]
pub struct Config {
    pub monitor: MonitorConfig,
    pub targets: TargetsConfig,
    pub database: DatabaseConfig,
    pub logging: LoggingConfig,
}

impl Clone for Config {
    fn clone(&self) -> (r: Self)
        ensures
            r.monitor == self.monitor,
            r.targets.gateway == self.targets.gateway,
            r.targets.targets@ == self.targets.targets@,
            r.database == self.database,
            r.logging == self.logging,
    {
        Config {
            monitor: self.monitor,
            targets: self.targets.clone(),
            database: self.database.clone(),
            logging: self.logging.clone(),
        }
    }
}

impl Default for Config {
    fn default() -> (r: Self)
        ensures
            r.monitor == (MonitorConfig {
                ping_interval_ms: 1000,
                ping_timeout_ms: 2000,
                degraded_threshold: 3,
                offline_threshold: 5,
                recovery_threshold: 2,
            }),
            r.targets.gateway is None,
            r.targets.targets.deep_view() == default_target_views(),
            r.database == (DatabaseConfig { path: None, retention_days: 90 }),
            r.logging.level@ == "info"@,
            r.logging.file is None,
    {
        Config {
            monitor: MonitorConfig::default(),
            targets: TargetsConfig::default(),
            database: DatabaseConfig::default(),
            logging: LoggingConfig::default(),
        }
    }
}

/// The same result, with the path it holds marked as present.
pub open spec fn found(r: Result<PathBuf, ConfigError>) -> Result<Option<PathBuf>, ConfigError> {
    match r {
        Ok(p) => Ok(Some(p)),
        Err(e) => Err(e),
    }
}

impl Config {
    /// The endpoints to probe: the gateway first, under the name `Gateway`,
    /// where one is configured, then the configured targets in their order.
    pub open spec fn all_target_views(self) -> Seq<TargetView> {
        match self.targets.gateway {
            Some(g) => seq![TargetView { name: "Gateway"@, ip: g@ }]
                + self.targets.targets.deep_view(),
            None => self.targets.targets.deep_view(),
        }
    }

    /// The endpoints to probe (see `all_target_views`).
    pub fn all_targets(&self) -> (r: Vec<Target>)
        ensures
            r.deep_view() == self.all_target_views(),
    {
        let mut r: Vec<Target> = Vec::new();
        if let Some(gateway) = &self.targets.gateway {
            r.push(Target::new("Gateway", gateway.as_str()));
        }
        let ghost head = r.deep_view();
        let mut i: usize = 0;
        while i < self.targets.targets.len()
            invariant
                i <= self.targets.targets.len(),
                r.deep_view() == head + self.targets.targets.deep_view().take(i as int),
            decreases self.targets.targets.len() - i,
        {
            let ghost before = r.deep_view();
            r.push(self.targets.targets[i].clone());
            i += 1;
            assert(r.deep_view() =~= before.push(self.targets.targets@[i - 1]@));
        }
        r
    }

    /// The configuration file of the production environment.
    pub fn config_path() -> (r: Result<PathBuf, ConfigError>)
        ensures
            exists|base: Option<PathBuf>|
                r == Environment::Production.file_under(base, "config.toml"@),
    {
        Environment::Production.config_path()
    }

    /// The directory of the production environment.
    pub fn data_dir() -> (r: Result<PathBuf, ConfigError>)
        ensures
            exists|base: Option<PathBuf>| r == Environment::Production.data_dir_under(base),
    {
        Environment::Production.data_dir()
    }

    /// The database file: the configured one, or else that of `env`.
    pub fn database_path_for_env(&self, env: &Environment) -> (r: Result<PathBuf, ConfigError>)
        ensures
            match self.database.path {
                Some(p) => r == Ok::<PathBuf, ConfigError>(p),
                None => exists|base: Option<PathBuf>| r == env.file_under(base, "monitor.db"@),
            },
    {
        match &self.database.path {
            Some(p) => Ok(p.clone()),
            None => env.database_path(),
        }
    }

    /// The database file: the configured one, or else that of the production
    /// environment.
    pub fn database_path(&self) -> (r: Result<PathBuf, ConfigError>)
        ensures
            match self.database.path {
                Some(p) => r == Ok::<PathBuf, ConfigError>(p),
                None => exists|base: Option<PathBuf>|
                    r == Environment::Production.file_under(base, "monitor.db"@),
            },
    {
        self.database_path_for_env(&Environment::Production)
    }

    /// The log file: the configured one, or else that of `env`. The result
    /// is never `Ok(None)`.
    pub fn log_path_for_env(&self, env: &Environment) -> (r: Result<Option<PathBuf>, ConfigError>)
        ensures
            match self.logging.file {
                Some(p) => r == Ok::<Option<PathBuf>, ConfigError>(Some(p)),
                None => exists|base: Option<PathBuf>|
                    r == found(#[trigger] env.file_under(base, "monitor.log"@)),
            },
    {
        match &self.logging.file {
            Some(p) => Ok(Some(p.clone())),
            None => match env.log_path() {
                Ok(p) => Ok(Some(p)),
                Err(e) => Err(e),
            },
        }
    }

    /// The log file: the configured one, or else that of the production
    /// environment.
    pub fn log_path(&self) -> (r: Result<Option<PathBuf>, ConfigError>)
        ensures
            match self.logging.file {
                Some(p) => r == Ok::<Option<PathBuf>, ConfigError>(Some(p)),
                None => exists|base: Option<PathBuf>|
                    r == found(
                        #[trigger] Environment::Production.file_under(base, "monitor.log"@),
                    ),
            },
    {
        self.log_path_for_env(&Environment::Production)
    }
}

} // verus!
