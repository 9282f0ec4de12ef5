//! Configuration of the command line, resolved field by field: an
//! environment variable first, then the credentials file, then the
//! default.
//!
//! | Field | Variable | Default |
//! |-------|----------|---------|
//! | `base_url` | `NORDNET_BASE_URL` | `https://public.nordnet.se/api/2` |
//! | `api_key` | `NORDNET_API_KEY` | none |
//! | `service` | `NORDNET_SERVICE` | `NEXTAPI` |
//! | `key_path` | `NORDNET_KEY_PATH` | none |
//! | `default_account` | `NORDNET_DEFAULT_ACCOUNT` | none |
//!
//! A missing field that a command needs surfaces as
//! [`ConfigError::Missing`]; the caller decides whether that is fatal.

use vstd::prelude::*;
use crate::text::{opt_string_view, parse_i64, parse_i64_spec};

verus! {

/// The production base URL.
pub const DEFAULT_BASE_URL: &'static str = "https://public.nordnet.se/api/2";

/// The service name sent at login.
pub const DEFAULT_SERVICE: &'static str = "NEXTAPI";

/// Resolved credentials and connection settings.
#[derive(Debug, Clone, PartialEq, Eq)]
pub struct Config {
    pub base_url: String,
    pub api_key: Option<String>,
    pub service: String,
    /// Path of the private key file.
    pub key_path: Option<String>,
    pub default_account: Option<i64>,
}

/// The fields that the credentials file may set.
#[derive(Debug, Clone, Default, PartialEq, Eq)]
pub struct FileConfig {
    pub base_url: Option<String>,
    pub api_key: Option<String>,
    pub service: Option<String>,
    pub key_path: Option<String>,
    pub default_account: Option<i64>,
}

/// Why the configuration could not be resolved or lacks a field.
#[derive(Debug)]
pub enum ConfigError {
    /// A field that the command needs is not set.
    Missing(&'static str),
    /// The variable holds a value of the wrong form (the value as given).
    Invalid(&'static str, String),
    /// The file could not be read (its path and the system's message).
    Io(String, String),
    /// The file is not valid TOML of the expected shape (its path and the
    /// parser's message).
    Toml(String, String),
}

/// The value of the first pair of `env` named `key`.
pub open spec fn env_lookup(env: Seq<(String, String)>, key: Seq<char>) -> Option<Seq<char>>
    decreases env.len(),
{
    if env.len() == 0 {
        None
    } else if env[0].0@ == key {
        Some(env[0].1@)
    } else {
        env_lookup(env.drop_first(), key)
    }
}

/// The first of `a` and `b` that is set.
pub open spec fn first_set<T>(a: Option<T>, b: Option<T>) -> Option<T> {
    match a {
        Some(x) => Some(x),
        None => b,
    }
}

/// `o`'s value, or `d` when unset.
pub open spec fn or_default(o: Option<Seq<char>>, d: Seq<char>) -> Seq<char> {
    match o {
        Some(x) => x,
        None => d,
    }
}

/// The file's fields, all unset when there is no file.
pub open spec fn file_fields(file: Option<FileConfig>) -> FileConfig {
    match file {
        Some(f) => f,
        None => FileConfig {
            base_url: None,
            api_key: None,
            service: None,
            key_path: None,
            default_account: None,
        },
    }
}

/// `c` is the configuration layered from `env` over `file` over the
/// defaults, the account number being the one that the variable holds.
pub open spec fn layered(c: Config, file: Option<FileConfig>, env: Seq<(String, String)>) -> bool {
    let f = file_fields(file);
    &&& c.base_url@ == or_default(
        first_set(env_lookup(env, "NORDNET_BASE_URL"@), opt_string_view(f.base_url)),
        DEFAULT_BASE_URL@,
    )
    &&& opt_string_view(c.api_key) == first_set(
        env_lookup(env, "NORDNET_API_KEY"@),
        opt_string_view(f.api_key),
    )
    &&& c.service@ == or_default(
        first_set(env_lookup(env, "NORDNET_SERVICE"@), opt_string_view(f.service)),
        DEFAULT_SERVICE@,
    )
    &&& opt_string_view(c.key_path) == first_set(
        env_lookup(env, "NORDNET_KEY_PATH"@),
        opt_string_view(f.key_path),
    )
    &&& c.default_account == match env_lookup(env, "NORDNET_DEFAULT_ACCOUNT"@) {
        Some(v) => parse_i64_spec(v),
        None => f.default_account,
    }
}

/// Each field of `c` as the documented order gives it, field by field and
/// variable by variable: a variable that is set is the value, whatever the
/// file says; else the file's value; else the default.
pub open spec fn environment_wins(c: Config, file: Option<FileConfig>, env: Seq<(String, String)>) -> bool {
    let f = file_fields(file);
    &&& (env_lookup(env, "NORDNET_BASE_URL"@) matches Some(v) ==> c.base_url@ == v)
    &&& (env_lookup(env, "NORDNET_BASE_URL"@) is None ==> c.base_url@ == (match f.base_url {
        Some(x) => x@,
        None => DEFAULT_BASE_URL@,
    }))
    &&& (env_lookup(env, "NORDNET_API_KEY"@) matches Some(v) ==> opt_string_view(c.api_key) == Some(v))
    &&& (env_lookup(env, "NORDNET_API_KEY"@) is None ==> opt_string_view(c.api_key) == opt_string_view(
        f.api_key,
    ))
    &&& (env_lookup(env, "NORDNET_SERVICE"@) matches Some(v) ==> c.service@ == v)
    &&& (env_lookup(env, "NORDNET_SERVICE"@) is None ==> c.service@ == (match f.service {
        Some(x) => x@,
        None => DEFAULT_SERVICE@,
    }))
    &&& (env_lookup(env, "NORDNET_KEY_PATH"@) matches Some(v) ==> opt_string_view(c.key_path) == Some(v))
    &&& (env_lookup(env, "NORDNET_KEY_PATH"@) is None ==> opt_string_view(c.key_path) == opt_string_view(
        f.key_path,
    ))
    &&& (env_lookup(env, "NORDNET_DEFAULT_ACCOUNT"@) matches Some(v) ==> c.default_account
        == parse_i64_spec(v))
    &&& (env_lookup(env, "NORDNET_DEFAULT_ACCOUNT"@) is None ==> c.default_account == f.default_account)
}

/// Law: the layered configuration lets every set variable win over the
/// file, and the file over the defaults, field by field.
pub proof fn layered_lets_environment_win(c: Config, file: Option<FileConfig>, env: Seq<(String, String)>)
    requires
        layered(c, file, env),
    ensures
        environment_wins(c, file, env),
{
}

/// Law: once a variable is set, the file has no say in its field: two
/// configurations resolved from the same environment and any two files
/// agree on every field whose variable is set.
pub proof fn set_variable_ignores_file(
    c1: Config,
    file1: Option<FileConfig>,
    c2: Config,
    file2: Option<FileConfig>,
    env: Seq<(String, String)>,
)
    requires
        layered(c1, file1, env),
        layered(c2, file2, env),
    ensures
        env_lookup(env, "NORDNET_BASE_URL"@) is Some ==> c1.base_url@ == c2.base_url@,
        env_lookup(env, "NORDNET_API_KEY"@) is Some ==> opt_string_view(c1.api_key) == opt_string_view(
            c2.api_key,
        ),
        env_lookup(env, "NORDNET_SERVICE"@) is Some ==> c1.service@ == c2.service@,
        env_lookup(env, "NORDNET_KEY_PATH"@) is Some ==> opt_string_view(c1.key_path) == opt_string_view(
            c2.key_path,
        ),
        env_lookup(env, "NORDNET_DEFAULT_ACCOUNT"@) is Some ==> c1.default_account == c2.default_account,
{
    layered_lets_environment_win(c1, file1, env);
    layered_lets_environment_win(c2, file2, env);
}

/// The value of the first pair of `env` named `key`.
fn env_get(env: &[(String, String)], key: &str) -> (r: Option<String>)
    ensures
        opt_string_view(r) == env_lookup(env@, key@),
{
    let k = key.to_owned();
    let mut i: usize = 0;
    assert(env@.skip(0) =~= env@);
    while i < env.len()
        invariant
            i <= env.len(),
            k@ == key@,
            env_lookup(env@, key@) == env_lookup(env@.skip(i as int), key@),
        decreases env.len() - i,
    {
        assert(env@.skip(i as int)[0] == env@[i as int]);
        if env[i].0 == k {
            return Some(env[i].1.clone());
        }
        assert(env@.skip(i as int).drop_first() =~= env@.skip(i + 1));
        i = i + 1;
    }
    None
}

impl Config {
    /// The configuration with no file and no variable.
    pub fn defaults() -> (c: Self)
        ensures
            c.base_url@ == DEFAULT_BASE_URL@,
            c.api_key is None,
            c.service@ == DEFAULT_SERVICE@,
            c.key_path is None,
            c.default_account is None,
    {
        Config {
            base_url: DEFAULT_BASE_URL.to_owned(),
            api_key: None,
            service: DEFAULT_SERVICE.to_owned(),
            key_path: None,
            default_account: None,
        }
    }

    /// Resolve the configuration from the parsed credentials file, if there
    /// is one, and the environment: for each field the first variable of
    /// that name wins, then the file, then the default. A variable
    /// `NORDNET_DEFAULT_ACCOUNT` that is not a decimal `i64` is
    /// [`ConfigError::Invalid`], with the value as given.
    pub fn load_from(file: Option<FileConfig>, env: &[(String, String)]) -> (r: Result<Self, ConfigError>)
        ensures
            match r {
                Ok(c) => layered(c, file, env@),
                Err(e) => (e matches ConfigError::Invalid(name, value) && name@ == "NORDNET_DEFAULT_ACCOUNT"@
                    && env_lookup(env@, "NORDNET_DEFAULT_ACCOUNT"@) == Some(value@)),
            },
            r is Err <==> (env_lookup(env@, "NORDNET_DEFAULT_ACCOUNT"@) matches Some(v) && parse_i64_spec(
                v,
            ) is None),
            r matches Ok(c) ==> environment_wins(c, file, env@),
    {
        let ghost f0 = file_fields(file);
        let mut cfg = Config::defaults();
        if let Some(fc) = file {
            if let Some(v) = fc.base_url {
                cfg.base_url = v;
            }
            if let Some(v) = fc.api_key {
                cfg.api_key = Some(v);
            }
            if let Some(v) = fc.service {
                cfg.service = v;
            }
            if let Some(v) = fc.key_path {
                cfg.key_path = Some(v);
            }
            if let Some(v) = fc.default_account {
                cfg.default_account = Some(v);
            }
        }
        if let Some(v) = env_get(env, "NORDNET_BASE_URL") {
            cfg.base_url = v;
        }
        if let Some(v) = env_get(env, "NORDNET_API_KEY") {
            cfg.api_key = Some(v);
        }
        if let Some(v) = env_get(env, "NORDNET_SERVICE") {
            cfg.service = v;
        }
        if let Some(v) = env_get(env, "NORDNET_KEY_PATH") {
            cfg.key_path = Some(v);
        }
        if let Some(v) = env_get(env, "NORDNET_DEFAULT_ACCOUNT") {
            match parse_i64(v.as_str()) {
                Some(n) => {
                    cfg.default_account = Some(n);
                },
                None => {
                    return Err(ConfigError::Invalid("NORDNET_DEFAULT_ACCOUNT", v));
                },
            }
        }
        Ok(cfg)
    }

    /// The API key, or [`ConfigError::Missing`] (`api_key`).
    pub fn require_api_key(&self) -> (r: Result<&str, ConfigError>)
        ensures
            match self.api_key {
                Some(k) => r matches Ok(s) && s@ == k@,
                None => r matches Err(ConfigError::Missing(name)) && name@ == "api_key"@,
            },
    {
        match &self.api_key {
            Some(k) => Ok(k.as_str()),
            None => Err(ConfigError::Missing("api_key")),
        }
    }

    /// The private key path, or [`ConfigError::Missing`] (`key_path`).
    pub fn require_key_path(&self) -> (r: Result<&str, ConfigError>)
        ensures
            match self.key_path {
                Some(k) => r matches Ok(s) && s@ == k@,
                None => r matches Err(ConfigError::Missing(name)) && name@ == "key_path"@,
            },
    {
        match &self.key_path {
            Some(k) => Ok(k.as_str()),
            None => Err(ConfigError::Missing("key_path")),
        }
    }
}

} // verus!
