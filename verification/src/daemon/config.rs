use vstd::prelude::*;

verus! {

/// Where the API listens.
#[derive(Debug, PartialEq)]
pub struct ApiConfig {
    pub addr: String,
}

impl Default for ApiConfig {
    fn default() -> (c: ApiConfig)
        ensures
            c.addr@ == "127.0.0.1:3000"@,
    {
        ApiConfig { addr: "127.0.0.1:3000".to_owned() }
    }
}

/// Where the proxy listens, where it sends requests on, and how much of
/// the bodies it keeps.
#[derive(Debug, PartialEq)]
pub struct ProxyConfig {
    pub addr: String,
    pub target: String,
    pub capture_mode: String,
}

impl Default for ProxyConfig {
    fn default() -> (c: ProxyConfig)
        ensures
            c.addr@ == "127.0.0.1:3001"@,
            c.target@ == "http://localhost:11434"@,
            c.capture_mode@ == "full"@,
    {
        ProxyConfig {
            addr: "127.0.0.1:3001".to_owned(),
            target: "http://localhost:11434".to_owned(),
            capture_mode: "full".to_owned(),
        }
    }
}

/// Where the database lies, where that is not the usual place.
#[derive(Debug, PartialEq)]
pub struct StorageConfig {
    pub db_path: Option<String>,
}

impl Default for StorageConfig {
    fn default() -> (c: StorageConfig)
        ensures
            c.db_path.is_none(),
    {
        StorageConfig { db_path: None }
    }
}

/// How much is logged.
#[derive(Debug, PartialEq)]
pub struct LoggingConfig {
    pub level: String,
}

impl Default for LoggingConfig {
    fn default() -> (c: LoggingConfig)
        ensures
            c.level@ == "info"@,
    {
        LoggingConfig { level: "info".to_owned() }
    }
}

/// The configuration of the daemon.
#[derive(Debug, PartialEq)]
pub struct Config {
    pub api: ApiConfig,
    pub proxy: ProxyConfig,
    pub storage: StorageConfig,
    pub logging: LoggingConfig,
}

impl Default for Config {
    fn default() -> (c: Config)
        ensures
            c.api.addr@ == "127.0.0.1:3000"@,
            c.proxy.addr@ == "127.0.0.1:3001"@,
            c.proxy.target@ == "http://localhost:11434"@,
            c.proxy.capture_mode@ == "full"@,
            c.storage.db_path.is_none(),
            c.logging.level@ == "info"@,
    {
        Config {
            api: ApiConfig::default(),
            proxy: ProxyConfig::default(),
            storage: StorageConfig::default(),
            logging: LoggingConfig::default(),
        }
    }
}

/// The directory of the data, below the home of the user.
pub const DATA_SUBDIR: &'static str = ".llmtrace";

impl Config {
    /// The directory of the data of the user whose home is `home`.
    pub fn data_dir(home: &str) -> (r: String)
        ensures
            r@ == home@ + "/"@ + ".llmtrace"@,
    {
        crate::text::concat3(home, "/", DATA_SUBDIR)
    }

    /// Where the configuration lies.
    pub fn default_path(home: &str) -> (r: String)
        ensures
            r@ == home@ + "/"@ + ".llmtrace"@ + "/config.toml"@,
    {
        crate::text::concat(Config::data_dir(home).as_str(), "/config.toml")
    }

    /// Where the database lies: where the configuration says, or in the
    /// directory of the data.
    pub fn db_path(&self, home: &str) -> (r: String)
        ensures
            r@ == match self.storage.db_path {
                Some(p) => p@,
                None => home@ + "/"@ + ".llmtrace"@ + "/traces.db"@,
            },
    {
        match &self.storage.db_path {
            Some(p) => p.clone(),
            None => crate::text::concat(Config::data_dir(home).as_str(), "/traces.db"),
        }
    }

    /// Where the logs lie.
    pub fn log_dir(home: &str) -> (r: String)
        ensures
            r@ == home@ + "/"@ + ".llmtrace"@ + "/logs"@,
    {
        crate::text::concat(Config::data_dir(home).as_str(), "/logs")
    }

    /// Where the daemon notes its process.
    pub fn pid_path(home: &str) -> (r: String)
        ensures
            r@ == home@ + "/"@ + ".llmtrace"@ + "/daemon.pid"@,
    {
        crate::text::concat(Config::data_dir(home).as_str(), "/daemon.pid")
    }
}

/// What is taken where a value can come from the command line, from the
/// configuration, or from neither: the first of them that is there.
pub fn resolve(arg: Option<String>, configured: String) -> (r: String)
    ensures
        r@ == match arg {
            Some(a) => a@,
            None => configured@,
        },
{
    match arg {
        Some(a) => a,
        None => configured,
    }
}

} // verus!
