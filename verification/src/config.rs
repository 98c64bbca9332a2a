//! Client configuration: reconnection policy, per-client settings, servers and accounts.

use vstd::prelude::*;
use crate::text::{chars_of, concat, decimal, u64_to_decimal};

verus! {

/// Reconnection policy. The backoff multiplier of the configuration file is a
/// floating-point number, so the delays themselves are computed outside this
/// library and handed to the client.
#[derive(Clone, Copy, Debug, PartialEq, Eq, Structural)]
pub struct ReconnectConfig {
    /// Reconnect automatically when the connection is lost.
    pub enabled: bool,
    /// Largest number of reconnection attempts; 0 means no limit.
    pub max_attempts: u32,
    /// First retry delay, in seconds.
    pub initial_delay_secs: u64,
    /// Largest retry delay, in seconds.
    pub max_delay_secs: u64,
}

impl Default for ReconnectConfig {
    fn default() -> (r: ReconnectConfig)
        ensures
            r == (ReconnectConfig { enabled: false, max_attempts: 0, initial_delay_secs: 10, max_delay_secs: 600 }),
    {
        ReconnectConfig { enabled: false, max_attempts: 0, initial_delay_secs: 10, max_delay_secs: 600 }
    }
}

impl ReconnectConfig {
    /// Whether attempt number `attempt` (counting from zero) is allowed.
    pub open spec fn allows_attempt(self, attempt: u32) -> bool {
        self.max_attempts == 0 || attempt < self.max_attempts
    }

    /// Whether attempt number `attempt` (counting from zero) is allowed:
    /// always when there is no limit, else while below it.
    pub fn should_attempt_reconnect(&self, attempt: u32) -> (r: bool)
        ensures
            r == self.allows_attempt(attempt),
    {
        if self.max_attempts == 0 {
            true
        } else {
            attempt < self.max_attempts
        }
    }
}

/// A game server.
#[derive(Clone, Debug, PartialEq, Eq)]
pub struct ServerConfig {
    pub host: String,
    pub port: u16,
}

impl ServerConfig {
    /// `"<host>:<port>"`.
    pub open spec fn display_spec(self) -> Seq<char> {
        self.host@ + ":"@ + decimal(self.port as nat)
    }

    /// The server as `host:port`.
    pub fn display(&self) -> (r: String)
        ensures
            r@ == self.display_spec(),
    {
        let t = concat(&self.host, ":");
        let p = u64_to_decimal(self.port as u64);
        concat(&t, p.as_str())
    }
}

/// An account on a game server.
#[derive(Clone, Debug, PartialEq, Eq)]
pub struct AccountConfig {
    pub username: String,
    pub password: String,
    /// The character to log in with once the character list arrives.
    pub character: Option<String>,
}

impl AccountConfig {
    /// The account as shown to the user: its name.
    pub fn display(&self) -> (r: String)
        ensures
            r == self.username,
    {
        self.username.clone()
    }
}

/// The settings one client runs with.
#[derive(Clone, Debug, PartialEq, Eq)]
pub struct ClientConfig {
    pub id: u32,
    pub address: String,
    pub account_name: String,
    pub password: String,
    /// Reconnect automatically with exponential backoff.
    pub reconnect: bool,
    /// The character to log in with once the character list arrives.
    pub character_name: Option<String>,
}

impl ClientConfig {
    /// Settings without reconnection or automatic character login.
    pub fn new(id: u32, address: String, account_name: String, password: String) -> (r: ClientConfig)
        ensures
            r == (ClientConfig { id, address, account_name, password, reconnect: false, character_name: None }),
    {
        ClientConfig { id, address, account_name, password, reconnect: false, character_name: None }
    }

    /// The same settings with reconnection set to `reconnect`.
    pub fn with_reconnect(self, reconnect: bool) -> (r: ClientConfig)
        ensures
            r == (ClientConfig { reconnect, ..self }),
    {
        ClientConfig { reconnect, ..self }
    }

    /// The same settings logging in as `character_name`.
    pub fn with_character_name(self, character_name: String) -> (r: ClientConfig)
        ensures
            r == (ClientConfig { character_name: Some(character_name), ..self }),
    {
        ClientConfig { character_name: Some(character_name), ..self }
    }
}

/// Why the configuration file could not be loaded.
#[derive(Clone, Debug, PartialEq, Eq)]
pub enum ConfigLoadError {
    NotFound,
    ParseError(String),
    IoError(String),
}

impl ConfigLoadError {
    /// The message shown for the error.
    pub open spec fn message_spec(self) -> Seq<char> {
        match self {
            ConfigLoadError::NotFound => "Config file not found"@,
            ConfigLoadError::ParseError(m) => "Failed to parse config: "@ + m@,
            ConfigLoadError::IoError(m) => "IO error reading config: "@ + m@,
        }
    }

    /// The message shown for the error.
    pub fn message(&self) -> (r: String)
        ensures
            r@ == self.message_spec(),
    {
        match self {
            ConfigLoadError::NotFound => "Config file not found".to_owned(),
            ConfigLoadError::ParseError(m) => {
                let t = "Failed to parse config: ".to_owned();
                concat(&t, m.as_str())
            },
            ConfigLoadError::IoError(m) => {
                let t = "IO error reading config: ".to_owned();
                concat(&t, m.as_str())
            },
        }
    }
}

/// The configuration default of a flag that is on unless set.
pub fn default_true() -> (r: bool)
    ensures
        r,
{
    true
}

/// Hot reload of scripts is on unless set.
pub fn default_hot_reload() -> (r: bool)
    ensures
        r,
{
    true
}

/// Scripts are scanned for changes every 500 milliseconds unless set.
pub fn default_hot_reload_interval() -> (r: u64)
    ensures
        r == 500,
{
    500
}

/// The environment variables the project's directories depend on, each as
/// read (`None` when unset or not Unicode).
#[derive(Clone, Debug, PartialEq, Eq)]
pub struct PathEnv {
    pub home: Option<String>,
    pub userprofile: Option<String>,
    pub xdg_config_home: Option<String>,
    pub xdg_data_home: Option<String>,
    pub xdg_cache_home: Option<String>,
}

/// `base` joined with the relative or absolute path `p`, as a Unix path: an
/// absolute `p` replaces `base`, and one separator goes between them.
pub open spec fn path_join(base: Seq<char>, p: Seq<char>) -> Seq<char> {
    if p.len() > 0 && p[0] == '/' {
        p
    } else if base.len() == 0 {
        p
    } else if base.last() == '/' {
        base + p
    } else {
        base + "/"@ + p
    }
}

/// Join two paths.
pub fn join_path(base: &String, p: &str) -> (r: String)
    ensures
        r@ == path_join(base@, p@),
{
    let pc = chars_of(p);
    if pc.len() > 0 && pc[0] == '/' {
        return p.to_owned();
    }
    let bc = chars_of(base.as_str());
    if bc.len() == 0 {
        p.to_owned()
    } else if bc[bc.len() - 1] == '/' {
        concat(base, p)
    } else {
        let t = concat(base, "/");
        concat(&t, p)
    }
}

/// The home directory: `HOME`, else `USERPROFILE`.
pub open spec fn home_of(env: PathEnv) -> Option<String> {
    match env.home {
        Some(h) => Some(h),
        None => env.userprofile,
    }
}

/// `xdg` if set, else `home` joined with `sub`, else `fallback`; then `name` joined on.
pub open spec fn xdg_dir(xdg: Option<String>, home: Option<String>, sub: Seq<char>, fallback: Seq<char>, name: Seq<char>) -> Seq<char> {
    let base = match xdg {
        Some(x) => x@,
        None => match home {
            Some(h) => path_join(h@, sub),
            None => fallback,
        },
    };
    path_join(base, name)
}

/// The project's directories under the XDG base directory layout: config
/// in `$XDG_CONFIG_HOME` (default `~/.config`), data in `$XDG_DATA_HOME`
/// (default `~/.local/share`), cache in `$XDG_CACHE_HOME` (default `~/.cache`),
/// each in a directory named after the project.
#[derive(Clone, Debug, PartialEq, Eq)]
pub struct ProjectPaths {
    pub name: String,
    pub env: PathEnv,
}

impl ProjectPaths {
    /// The directories of the project `name` in the environment `env`;
    /// `None` when no home directory is known.
    pub fn new(name: &str, env: PathEnv) -> (r: Option<ProjectPaths>)
        ensures
            r is Some <==> home_of(env) is Some,
            r matches Some(p) ==> p.name@ == name@ && p.env == env,
    {
        let known = env.home.is_some() || env.userprofile.is_some();
        if known {
            Some(ProjectPaths { name: name.to_owned(), env })
        } else {
            None
        }
    }

    fn dir(&self, xdg: &Option<String>, sub: &str, fallback: &str) -> (r: String)
        ensures
            r@ == xdg_dir(*xdg, home_of(self.env), sub@, fallback@, self.name@),
    {
        let base = match xdg {
            Some(x) => x.clone(),
            None => match (&self.env.home, &self.env.userprofile) {
                (Some(h), _) => join_path(h, sub),
                (None, Some(h)) => join_path(h, sub),
                (None, None) => fallback.to_owned(),
            },
        };
        join_path(&base, self.name.as_str())
    }

    /// The configuration directory.
    pub fn config_dir(&self) -> (r: String)
        ensures
            r@ == xdg_dir(self.env.xdg_config_home, home_of(self.env), ".config"@, ".config"@, self.name@),
    {
        self.dir(&self.env.xdg_config_home, ".config", ".config")
    }

    /// The data directory.
    pub fn data_dir(&self) -> (r: String)
        ensures
            r@ == xdg_dir(self.env.xdg_data_home, home_of(self.env), ".local/share"@, ".local/share"@, self.name@),
    {
        self.dir(&self.env.xdg_data_home, ".local/share", ".local/share")
    }

    /// The cache directory.
    pub fn cache_dir(&self) -> (r: String)
        ensures
            r@ == xdg_dir(self.env.xdg_cache_home, home_of(self.env), ".cache"@, ".cache"@, self.name@),
    {
        self.dir(&self.env.xdg_cache_home, ".cache", ".cache")
    }
}

/// Scripting settings (the per-script values of the file stay outside).
#[derive(Clone, Debug, PartialEq, Eq)]
pub struct ScriptingConfig {
    pub enabled: bool,
    /// Where scripts live; the data directory's `scripts` when unset.
    pub script_dir: Option<String>,
    pub hot_reload: bool,
    pub hot_reload_interval_ms: u64,
    /// Where WASM scripts live; the data directory's `wasm` when unset.
    pub wasm_dir: Option<String>,
}

impl Default for ScriptingConfig {
    fn default() -> (r: ScriptingConfig)
        ensures
            r == (ScriptingConfig { enabled: true, script_dir: None, hot_reload: true, hot_reload_interval_ms: 500, wasm_dir: None }),
    {
        ScriptingConfig { enabled: true, script_dir: None, hot_reload: true, hot_reload_interval_ms: 500, wasm_dir: None }
    }
}

impl ScriptingConfig {
    /// The script directory: the configured one, else `scripts` in the
    /// project's data directory, else `.scripts`.
    pub fn script_dir(&self, env: PathEnv) -> (r: String)
        ensures
            r@ == (match self.script_dir {
                Some(d) => d@,
                None => if home_of(env) is Some {
                    path_join(xdg_dir(env.xdg_data_home, home_of(env), ".local/share"@, ".local/share"@, "gromnie"@), "scripts"@)
                } else {
                    ".scripts"@
                },
            }),
    {
        match &self.script_dir {
            Some(d) => d.clone(),
            None => match ProjectPaths::new("gromnie", env) {
                Some(p) => {
                    let d = p.data_dir();
                    join_path(&d, "scripts")
                },
                None => ".scripts".to_owned(),
            },
        }
    }

    /// The WASM script directory: the configured one, else `wasm` in the
    /// project's data directory, else `.wasm`.
    pub fn wasm_dir(&self, env: PathEnv) -> (r: String)
        ensures
            r@ == (match self.wasm_dir {
                Some(d) => d@,
                None => if home_of(env) is Some {
                    path_join(xdg_dir(env.xdg_data_home, home_of(env), ".local/share"@, ".local/share"@, "gromnie"@), "wasm"@)
                } else {
                    ".wasm"@
                },
            }),
    {
        match &self.wasm_dir {
            Some(d) => d.clone(),
            None => match ProjectPaths::new("gromnie", env) {
                Some(p) => {
                    let d = p.data_dir();
                    join_path(&d, "wasm")
                },
                None => ".wasm".to_owned(),
            },
        }
    }
}

/// Whether no key occurs twice.
pub open spec fn keys_distinct<V>(entries: Seq<(String, V)>) -> bool {
    forall|i: int, j: int| 0 <= i < j < entries.len() ==> #[trigger] entries[i].0@ != #[trigger] entries[j].0@
}

/// Whether `a` comes before `b` in the order of Rust's `String`: byte-wise
/// on the UTF-8 encoding, which is code point order, a proper prefix first.
pub open spec fn chars_less(a: Seq<char>, b: Seq<char>) -> bool {
    exists|k: int| 0 <= k <= a.len() && k < b.len() && #[trigger] a.subrange(0, k) == b.subrange(0, k)
        && (k == a.len() || (a[k] as u32) < (b[k] as u32))
}

/// Whether the names of `entries` strictly increase, as a `BTreeMap` keyed
/// by name walks them.
pub open spec fn names_in_order<V>(entries: Seq<(String, V)>) -> bool {
    forall|i: int, j: int| 0 <= i < j < entries.len() ==> chars_less(#[trigger] entries[i].0@, #[trigger] entries[j].0@)
}

/// The whole configuration file, its tables as (name, entry) pairs in name order.
#[derive(Clone, Debug, PartialEq, Eq)]
pub struct GromnieConfig {
    pub servers: Vec<(String, ServerConfig)>,
    pub accounts: Vec<(String, AccountConfig)>,
    pub scripting: ScriptingConfig,
    /// Reconnect automatically with exponential backoff.
    pub reconnect: bool,
}

impl GromnieConfig {
    /// Server and account names are unique, and each table is in name order.
    pub open spec fn wf(self) -> bool {
        &&& keys_distinct(self.servers@) && keys_distinct(self.accounts@)
        &&& names_in_order(self.servers@) && names_in_order(self.accounts@)
    }

    /// The path of the configuration file in the configuration directory of `paths`.
    pub fn config_path(paths: &ProjectPaths) -> (r: String)
        ensures
            r@ == path_join(xdg_dir(paths.env.xdg_config_home, home_of(paths.env), ".config"@, ".config"@, paths.name@), "config.toml"@),
    {
        let d = paths.config_dir();
        join_path(&d, "config.toml")
    }
}

} // verus!
