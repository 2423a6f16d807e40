use crate::api::auth_routes::{lowercase, lowercase_of};
use crate::json::{all_digits, digits_value};
use crate::text::{decimal, opt_text};
use vstd::prelude::*;

verus! {

/// Where the data is kept.
#[derive(Clone, Copy, Debug, PartialEq, Eq, Structural)]
pub enum StorageBackendType {
    Sqlite,
    Turbopuffer,
}

/// How the log is written.
#[derive(Clone, Copy, Debug, PartialEq, Eq, Structural)]
pub enum LogFormat {
    Json,
    Pretty,
}

/// What the environment says of a deployment: the value of each variable
/// that is set.
#[derive(Debug, PartialEq)]
pub struct CloudEnv {
    pub port: Option<String>,
    pub redis_url: Option<String>,
    pub turbopuffer_api_key: Option<String>,
    pub turbopuffer_namespace: Option<String>,
    pub storage_backend: Option<String>,
    pub metrics_enabled: Option<String>,
    pub log_format: Option<String>,
    pub fly_region: Option<String>,
    pub railway_region: Option<String>,
    pub aws_region: Option<String>,
    pub region: Option<String>,
    pub fly_alloc_id: Option<String>,
    pub railway_replica_id: Option<String>,
    pub hostname: Option<String>,
}

/// How a deployment is set up.
#[derive(Debug, PartialEq)]
pub struct CloudConfig {
    pub port: u16,
    pub redis_url: Option<String>,
    pub turbopuffer_api_key: Option<String>,
    pub turbopuffer_namespace: String,
    pub storage_backend: StorageBackendType,
    pub metrics_enabled: bool,
    pub log_format: LogFormat,
    pub region: Option<String>,
    pub instance_id: Option<String>,
}

/// The port that a text names: decimal digits, after a plus sign or not,
/// with a value that a port can have.
pub open spec fn port_of(s: Seq<char>) -> Option<u16> {
    let digits = if s.len() > 0 && s[0] == '+' {
        s.subrange(1, s.len() as int)
    } else {
        s
    };
    if digits.len() > 0 && all_digits(digits) && digits_value(digits) <= u16::MAX {
        Some(digits_value(digits) as u16)
    } else {
        None
    }
}

/// The port that a text names.
pub fn parse_port(s: &str) -> (r: Option<u16>)
    ensures
        r == port_of(s@),
{
    let chars = crate::text::to_chars(s);
    let digits = if chars.len() > 0 && chars[0] == '+' {
        crate::text::slice(&chars, 1, chars.len())
    } else {
        chars
    };
    match crate::json::parse_u64(&digits) {
        Some(v) => if v <= 65535 {
            Some(v as u16)
        } else {
            None
        },
        None => {
            proof {
                if digits.len() > 0 && all_digits(digits@) {
                    assert(digits_value(digits@) > u64::MAX);
                }
            }
            None
        },
    }
}

/// The first of some values that is set.
pub open spec fn first_set(values: Seq<Option<Seq<char>>>) -> Option<Seq<char>>
    decreases values.len(),
{
    if values.len() == 0 {
        None
    } else if values[0].is_some() {
        values[0]
    } else {
        first_set(values.drop_first())
    }
}

impl CloudConfig {
    /// The port: what `PORT` names, or 3000.
    pub open spec fn port_for(port: Option<Seq<char>>) -> u16 {
        match port {
            Some(p) => match port_of(p) {
                Some(n) => n,
                None => 3000,
            },
            None => 3000,
        }
    }

    /// The backend: the remote row store where `STORAGE_BACKEND` says
    /// `remote` or `turbopuffer`, in whatever case, else SQLite.
    pub open spec fn backend_for(value: Option<Seq<char>>) -> StorageBackendType {
        match value {
            Some(v) => if lowercase_of(v) == "turbopuffer"@ || lowercase_of(v) == "remote"@ {
                StorageBackendType::Turbopuffer
            } else {
                StorageBackendType::Sqlite
            },
            None => StorageBackendType::Sqlite,
        }
    }

    /// Whether metrics are served: unless `METRICS_ENABLED` is set to
    /// something else than `1` or `true`.
    pub open spec fn metrics_for(value: Option<Seq<char>>) -> bool {
        match value {
            Some(v) => v == "1"@ || lowercase_of(v) == "true"@,
            None => true,
        }
    }

    /// The format of the log: pretty where `LOG_FORMAT` names it, in
    /// whatever case, else JSON.
    pub open spec fn log_format_for(value: Option<Seq<char>>) -> LogFormat {
        match value {
            Some(v) => if lowercase_of(v) == "pretty"@ {
                LogFormat::Pretty
            } else {
                LogFormat::Json
            },
            None => LogFormat::Json,
        }
    }

    /// The set-up that the environment asks for.
    pub fn from_values(env: CloudEnv) -> (c: CloudConfig)
        ensures
            c.port == CloudConfig::port_for(opt_text(env.port)),
            opt_text(c.redis_url) == opt_text(env.redis_url),
            opt_text(c.turbopuffer_api_key) == opt_text(env.turbopuffer_api_key),
            c.turbopuffer_namespace@ == match env.turbopuffer_namespace {
                Some(n) => n@,
                None => "traceway"@,
            },
            c.storage_backend == CloudConfig::backend_for(opt_text(env.storage_backend)),
            c.metrics_enabled == CloudConfig::metrics_for(opt_text(env.metrics_enabled)),
            c.log_format == CloudConfig::log_format_for(opt_text(env.log_format)),
            opt_text(c.region) == first_set(
                seq![
                    opt_text(env.fly_region),
                    opt_text(env.railway_region),
                    opt_text(env.aws_region),
                    opt_text(env.region),
                ],
            ),
            opt_text(c.instance_id) == first_set(
                seq![
                    opt_text(env.fly_alloc_id),
                    opt_text(env.railway_replica_id),
                    opt_text(env.hostname),
                ],
            ),
    {
        let port = match &env.port {
            Some(p) => match parse_port(p.as_str()) {
                Some(n) => n,
                None => 3000,
            },
            None => 3000,
        };
        let storage_backend = match &env.storage_backend {
            Some(v) => if crate::text::same_text(lowercase(v.as_str()).as_str(), "turbopuffer")
                || crate::text::same_text(lowercase(v.as_str()).as_str(), "remote") {
                StorageBackendType::Turbopuffer
            } else {
                StorageBackendType::Sqlite
            },
            None => StorageBackendType::Sqlite,
        };
        let metrics_enabled = match &env.metrics_enabled {
            Some(v) => crate::text::same_text(v.as_str(), "1") || crate::text::same_text(
                lowercase(v.as_str()).as_str(),
                "true",
            ),
            None => true,
        };
        let log_format = match &env.log_format {
            Some(v) => if crate::text::same_text(lowercase(v.as_str()).as_str(), "pretty") {
                LogFormat::Pretty
            } else {
                LogFormat::Json
            },
            None => LogFormat::Json,
        };
        let ghost regions = seq![
            opt_text(env.fly_region),
            opt_text(env.railway_region),
            opt_text(env.aws_region),
            opt_text(env.region),
        ];
        let ghost instances = seq![
            opt_text(env.fly_alloc_id),
            opt_text(env.railway_replica_id),
            opt_text(env.hostname),
        ];
        proof {
            reveal_with_fuel(first_set, 5);
            assert(regions.drop_first() =~= seq![
                opt_text(env.railway_region),
                opt_text(env.aws_region),
                opt_text(env.region),
            ]);
            assert(regions.drop_first().drop_first() =~= seq![
                opt_text(env.aws_region),
                opt_text(env.region),
            ]);
            assert(regions.drop_first().drop_first().drop_first() =~= seq![opt_text(env.region)]);
            assert(instances.drop_first() =~= seq![
                opt_text(env.railway_replica_id),
                opt_text(env.hostname),
            ]);
            assert(instances.drop_first().drop_first() =~= seq![opt_text(env.hostname)]);
        }
        let region = if env.fly_region.is_some() {
            env.fly_region
        } else if env.railway_region.is_some() {
            env.railway_region
        } else if env.aws_region.is_some() {
            env.aws_region
        } else {
            env.region
        };
        let instance_id = if env.fly_alloc_id.is_some() {
            env.fly_alloc_id
        } else if env.railway_replica_id.is_some() {
            env.railway_replica_id
        } else {
            env.hostname
        };
        let turbopuffer_namespace = match env.turbopuffer_namespace {
            Some(n) => n,
            None => "traceway".to_owned(),
        };
        CloudConfig {
            port,
            redis_url: env.redis_url,
            turbopuffer_api_key: env.turbopuffer_api_key,
            turbopuffer_namespace,
            storage_backend,
            metrics_enabled,
            log_format,
            region,
            instance_id,
        }
    }

    /// The address that the daemon listens on: the port on every
    /// interface.
    pub fn bind_addr(&self) -> (r: String)
        ensures
            r@ == "0.0.0.0:"@ + decimal(self.port as nat),
    {
        crate::text::concat("0.0.0.0:", crate::text::u64_to_string(self.port as u64).as_str())
    }

    /// True when events go through Redis.
    pub fn has_redis(&self) -> (r: bool)
        ensures
            r == self.redis_url.is_some(),
    {
        self.redis_url.is_some()
    }

    /// True when the key of Turbopuffer is known.
    pub fn has_turbopuffer(&self) -> (r: bool)
        ensures
            r == self.turbopuffer_api_key.is_some(),
    {
        self.turbopuffer_api_key.is_some()
    }

    /// The warnings that belong in the log at the start: that the key of
    /// Turbopuffer is missing where Turbopuffer is the backend, and that
    /// events stay on this instance where Redis is not set.
    pub fn log_config(&self) -> (warnings: Vec<String>)
        ensures
            crate::text::texts_view(warnings@) == ({
                let a = if self.storage_backend == StorageBackendType::Turbopuffer
                    && self.turbopuffer_api_key.is_none() {
                    seq!["STORAGE_BACKEND=turbopuffer but TURBOPUFFER_API_KEY is not set"@]
                } else {
                    Seq::<Seq<char>>::empty()
                };
                let b = if self.redis_url.is_none() {
                    seq![
                        "REDIS_URL not set - SSE events will be local-only (single instance)"@,
                    ]
                } else {
                    Seq::<Seq<char>>::empty()
                };
                a + b
            }),
    {
        let mut warnings: Vec<String> = Vec::new();
        let turbopuffer = match self.storage_backend {
            StorageBackendType::Turbopuffer => true,
            StorageBackendType::Sqlite => false,
        };
        if turbopuffer && !self.has_turbopuffer() {
            warnings.push("STORAGE_BACKEND=turbopuffer but TURBOPUFFER_API_KEY is not set".to_owned());
        }
        if !self.has_redis() {
            warnings.push(
                "REDIS_URL not set - SSE events will be local-only (single instance)".to_owned(),
            );
        }
        assert(crate::text::texts_view(warnings@) =~= ({
            let a = if self.storage_backend == StorageBackendType::Turbopuffer
                && self.turbopuffer_api_key.is_none() {
                seq!["STORAGE_BACKEND=turbopuffer but TURBOPUFFER_API_KEY is not set"@]
            } else {
                Seq::<Seq<char>>::empty()
            };
            let b = if self.redis_url.is_none() {
                seq!["REDIS_URL not set - SSE events will be local-only (single instance)"@]
            } else {
                Seq::<Seq<char>>::empty()
            };
            a + b
        }));
        warnings
    }
}

} // verus!
