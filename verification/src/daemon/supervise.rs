use crate::text::{after_last, after_last_char, opt_text, texts_view};
use vstd::prelude::*;

verus! {

/// How long the parts of the daemon are given to stop, in seconds.
pub const SHUTDOWN_TIMEOUT_SECS: u64 = 10;

/// How often a part of the daemon is started again after it failed.
pub const MAX_COMPONENT_RESTARTS: u32 = 3;

/// The longest wait before a part is started again, in seconds.
pub const MAX_BACKOFF_SECS: u64 = 30;

/// What watching over a part of the daemon has come to: how often the
/// part was started again, and how long the next wait is.
#[derive(Clone, Copy, Debug, PartialEq, Eq, Structural)]
pub struct Supervisor {
    pub restarts: u32,
    pub backoff_secs: u64,
}

/// The wait after a wait of `secs` seconds: twice as long, and thirty
/// seconds at most.
pub open spec fn next_backoff(secs: u64) -> u64 {
    if secs >= 15 {
        MAX_BACKOFF_SECS
    } else {
        (secs * 2) as u64
    }
}

impl Supervisor {
    /// Before the first failure: no restart yet, and a wait of a second.
    pub fn new() -> (s: Supervisor)
        ensures
            s == (Supervisor { restarts: 0, backoff_secs: 1 }),
    {
        Supervisor { restarts: 0, backoff_secs: 1 }
    }

    /// Notes a failure of the part.  The part is started again after the
    /// seconds that come back, and the next wait is twice as long; `None`
    /// comes back once the part has been started again three times, and
    /// the part is given up.
    pub fn on_failure(&mut self) -> (wait: Option<u64>)
        ensures
            old(self).restarts < MAX_COMPONENT_RESTARTS ==> wait == Some(old(self).backoff_secs)
                && *final(self) == (Supervisor {
                restarts: (old(self).restarts + 1) as u32,
                backoff_secs: next_backoff(old(self).backoff_secs),
            }),
            old(self).restarts >= MAX_COMPONENT_RESTARTS ==> wait.is_none() && final(self).backoff_secs
                == old(self).backoff_secs && final(self).restarts >= MAX_COMPONENT_RESTARTS,
    {
        if self.restarts >= MAX_COMPONENT_RESTARTS {
            if self.restarts < u32::MAX {
                self.restarts = self.restarts + 1;
            }
            return None;
        }
        self.restarts = self.restarts + 1;
        let wait = self.backoff_secs;
        self.backoff_secs = if wait >= 15 {
            MAX_BACKOFF_SECS
        } else {
            wait * 2
        };
        Some(wait)
    }
}

/// The first of three settings that is made: what the command line says,
/// else what the environment says, else what the configuration says.
pub fn first_setting(arg: Option<String>, env: Option<String>, configured: String) -> (r: String)
    ensures
        r@ == match (arg, env) {
            (Some(a), _) => a@,
            (None, Some(e)) => e@,
            (None, None) => configured@,
        },
{
    match arg {
        Some(a) => a,
        None => match env {
            Some(e) => e,
            None => configured,
        },
    }
}

/// What stands after the last colon of an address, and the whole address
/// where it has no colon.
pub open spec fn port_part(addr: Seq<char>) -> Seq<char> {
    after_last(addr, ':')
}

/// The message for an address that another process listens on.
pub open spec fn port_in_use(addr: Seq<char>) -> Seq<char> {
    "port "@ + addr + " is already in use. Another daemon may be running.\nCheck with: lsof -i :"@
        + port_part(addr) + "\nOr update the address in ~/.llmtrace/config.toml"@
}

/// The message for an address that another process listens on.
pub fn port_in_use_message(addr: &str) -> (r: String)
    ensures
        r@ == port_in_use(addr@),
{
    let port = crate::text::from_chars(&after_last_char(&crate::text::to_chars(addr), ':'));
    let head = crate::text::concat3(
        "port ",
        addr,
        " is already in use. Another daemon may be running.\nCheck with: lsof -i :",
    );
    crate::text::concat3(
        head.as_str(),
        port.as_str(),
        "\nOr update the address in ~/.llmtrace/config.toml",
    )
}

/// The message for an address that cannot be listened on for another
/// reason.
pub fn cannot_bind_message(addr: &str, reason: &str) -> (r: String)
    ensures
        r@ == "cannot bind to "@ + addr@ + ": "@ + reason@,
{
    let head = crate::text::concat3("cannot bind to ", addr, ": ");
    crate::text::concat(head.as_str(), reason)
}

/// What the command line of the daemon can say.
#[derive(Debug, PartialEq)]
pub struct DaemonArgs {
    pub api_addr: Option<String>,
    pub proxy_addr: Option<String>,
    pub target_url: Option<String>,
    pub db_path: Option<String>,
    pub log_level: Option<String>,
    pub config: Option<String>,
    pub dev_ingest: bool,
    pub dev_ingest_interval: u64,
}

/// A flag with its value where the value is given.
pub open spec fn flag(name: Seq<char>, value: Option<Seq<char>>) -> Seq<Seq<char>> {
    match value {
        Some(v) => seq![name, v],
        None => Seq::empty(),
    }
}

/// The command line with which the daemon starts itself in the
/// background: in the foreground of the new process, with every setting
/// that its own command line made.
pub open spec fn background_args(args: DaemonArgs) -> Seq<Seq<char>> {
    seq!["--foreground"@] + flag("--api-addr"@, opt_text(args.api_addr)) + flag(
        "--proxy-addr"@,
        opt_text(args.proxy_addr),
    ) + flag("--target-url"@, opt_text(args.target_url)) + flag(
        "--db-path"@,
        opt_text(args.db_path),
    ) + flag("--log-level"@, opt_text(args.log_level)) + flag("--config"@, opt_text(args.config))
        + if args.dev_ingest {
        seq![
            "--dev-ingest"@,
            "--dev-ingest-interval"@,
            crate::text::decimal(args.dev_ingest_interval as nat),
        ]
    } else {
        Seq::empty()
    }
}

fn push_flag(out: &mut Vec<String>, name: &str, value: &Option<String>)
    ensures
        texts_view(final(out)@) == texts_view(old(out)@) + flag(name@, opt_text(*value)),
{
    let ghost before = texts_view(out@);
    match value {
        Some(v) => {
            out.push(name.to_owned());
            out.push(v.clone());
            assert(texts_view(out@) =~= before + seq![name@, v@]);
        },
        None => {
            assert(texts_view(out@) =~= before + Seq::<Seq<char>>::empty());
        },
    }
}

impl DaemonArgs {
    /// The command line with which the daemon starts itself in the
    /// background.
    pub fn for_background(&self) -> (r: Vec<String>)
        ensures
            texts_view(r@) == background_args(*self),
    {
        let mut r: Vec<String> = Vec::new();
        r.push("--foreground".to_owned());
        assert(texts_view(r@) =~= seq!["--foreground"@]);
        push_flag(&mut r, "--api-addr", &self.api_addr);
        push_flag(&mut r, "--proxy-addr", &self.proxy_addr);
        push_flag(&mut r, "--target-url", &self.target_url);
        push_flag(&mut r, "--db-path", &self.db_path);
        push_flag(&mut r, "--log-level", &self.log_level);
        push_flag(&mut r, "--config", &self.config);
        let ghost before = texts_view(r@);
        if self.dev_ingest {
            r.push("--dev-ingest".to_owned());
            r.push("--dev-ingest-interval".to_owned());
            r.push(crate::text::u64_to_string(self.dev_ingest_interval));
            assert(texts_view(r@) =~= before + seq![
                "--dev-ingest"@,
                "--dev-ingest-interval"@,
                crate::text::decimal(self.dev_ingest_interval as nat),
            ]);
        } else {
            assert(texts_view(r@) =~= before + Seq::<Seq<char>>::empty());
        }
        r
    }
}

} // verus!
