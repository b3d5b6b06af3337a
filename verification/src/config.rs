//! The settings of the two connection pools, taken from the variables of the
//! environment: `DATABASE_URL` and `DATABASE_POOL` for the record store,
//! `REDIS_URL` and `REDIS_POOL` for the cache.
//!
//! The library does not read the environment. The program hands the
//! variables in as pairs of name and value, in the order in which the
//! environment lists them.

use vstd::prelude::*;
use vstd::string::*;

verus! {

#[verifier::external_type_specification]
#[verifier::external_body]
pub struct ExSettings(::config::Config);

#[verifier::external_type_specification]
#[verifier::external_body]
pub struct ExSettingsError(::config::ConfigError);

/// Why the settings of a pool could not be had.
#[derive(Debug)]
pub enum SettingsError {
    /// The variables could not be taken in.
    Environment(::config::ConfigError),
    /// The connection string is missing or is no text.
    Url(::config::ConfigError),
    /// The pool size is missing or is no unsigned number.
    Pool(::config::ConfigError),
    /// The pool size is a number that the pool cannot hold.
    PoolTooLarge(u64),
}

/// The prefix of the variables that hold the settings of the record store.
pub open spec fn database_prefix() -> Seq<char> {
    "DATABASE"@
}

/// The prefix of the variables that hold the settings of the cache.
pub open spec fn redis_prefix() -> Seq<char> {
    "REDIS"@
}

/// The key of the connection string.
pub open spec fn url_key() -> Seq<char> {
    "url"@
}

/// The key of the pool size.
pub open spec fn pool_key() -> Seq<char> {
    "pool"@
}

/// Whether a variable is one that is taken in: its name holds no opening
/// bracket. A name with a bracket would be read as a place in a list, which
/// no setting is.
pub open spec fn is_plain(variable: (String, String)) -> bool {
    !variable.0@.contains('[')
}

/// The variables that are taken in, in their order.
pub open spec fn plain(variables: Seq<(String, String)>) -> Seq<(String, String)> {
    variables.filter(|variable: (String, String)| is_plain(variable))
}

/// The names and values of variables, as texts.
pub open spec fn variable_texts(variables: Seq<(String, String)>) -> Seq<(Seq<char>, Seq<char>)> {
    Seq::new(variables.len(), |i: int| (variables[i].0@, variables[i].1@))
}

/// The settings that the config crate builds from variables: those whose
/// names, in lower case, begin with `prefix` in lower case and an underscore,
/// each under the rest of its name. Where several variables come under one
/// name, their order alone decides which of them counts. It stands for
/// `Config::builder`, `ConfigBuilder::add_source` of
/// `Environment::with_prefix(prefix)` with the variables as its `source`, and
/// `ConfigBuilder::build`.
pub uninterp spec fn loaded(prefix: Seq<char>, variables: Seq<(Seq<char>, Seq<char>)>) -> Result<
    ::config::Config,
    ::config::ConfigError,
>;

/// The text that settings hold under a key, or why there is none. It stands
/// for `Config::get::<String>` of the config crate.
pub uninterp spec fn text_under(settings: ::config::Config, key: Seq<char>) -> Result<
    String,
    ::config::ConfigError,
>;

/// The unsigned number that settings hold under a key, or why there is none.
/// It stands for `Config::get::<u64>` of the config crate.
pub uninterp spec fn number_under(settings: ::config::Config, key: Seq<char>) -> Result<
    u64,
    ::config::ConfigError,
>;

/// Builds settings from variables through `Config::builder`,
/// `Environment::with_prefix`, `Environment::source`,
/// `ConfigBuilder::add_source` and `ConfigBuilder::build` of the config crate,
/// built with maps that keep the order of insertion, so that the result
/// depends on the prefix and the variables in their order, and on nothing
/// else. The crate reads a name with a bracket as a place in a list and may
/// panic on its number, so such names are left out by `requires`.
#[verifier::external_body]
fn load(prefix: &str, variables: Vec<(String, String)>) -> (r: Result<
    ::config::Config,
    ::config::ConfigError,
>)
    requires
        forall|i: int| 0 <= i < variables.len() ==> is_plain(#[trigger] variables[i]),
    ensures
        r == loaded(prefix@, variable_texts(variables@)),
{
    let source: ::config::Map<String, String> = variables.into_iter().collect();
    let environment = ::config::Environment::with_prefix(prefix).source(Some(source));
    ::config::Config::builder().add_source(environment).build()
}

/// `Config::get::<String>` of the config crate: the text under `key`, or why
/// there is none. The crate reads a key as a path; only the two plain keys
/// of this library are admitted.
#[verifier::external_body]
fn setting_text(settings: &::config::Config, key: &str) -> (r: Result<String, ::config::ConfigError>)
    requires
        key@ == url_key() || key@ == pool_key(),
    ensures
        r == text_under(*settings, key@),
{
    settings.get::<String>(key)
}

/// `Config::get::<u64>` of the config crate: the unsigned number under `key`,
/// or why there is none. The crate reads a key as a path; only the two plain
/// keys of this library are admitted.
#[verifier::external_body]
fn setting_number(settings: &::config::Config, key: &str) -> (r: Result<u64, ::config::ConfigError>)
    requires
        key@ == url_key() || key@ == pool_key(),
    ensures
        r == number_under(*settings, key@),
{
    settings.get::<u64>(key)
}

/// Whether a name holds an opening bracket.
fn holds_bracket(name: &str) -> (r: bool)
    ensures
        r == name@.contains('['),
{
    let length = name.unicode_len();
    let mut i: usize = 0;
    while i < length
        invariant
            length == name@.len(),
            i <= length,
            forall|j: int| 0 <= j < i ==> name@[j] != '[',
        decreases length - i,
    {
        if name.get_char(i) == '[' {
            return true;
        }
        i += 1;
    }
    false
}

/// The variables that are taken in, in their order: those whose names hold
/// no opening bracket.
pub fn plain_variables(variables: &Vec<(String, String)>) -> (r: Vec<(String, String)>)
    ensures
        r@ == plain(variables@),
        forall|i: int| 0 <= i < r.len() ==> is_plain(#[trigger] r[i]),
{
    let ghost keep = |variable: (String, String)| is_plain(variable);
    let mut kept: Vec<(String, String)> = Vec::new();
    let mut i: usize = 0;
    proof {
        reveal(Seq::filter);
        assert(variables@.take(0) =~= Seq::<(String, String)>::empty());
    }
    while i < variables.len()
        invariant
            i <= variables.len(),
            keep == |variable: (String, String)| is_plain(variable),
            kept@ == variables@.take(i as int).filter(keep),
            forall|j: int| 0 <= j < kept.len() ==> is_plain(#[trigger] kept[j]),
        decreases variables.len() - i,
    {
        proof {
            reveal(Seq::filter);
            let next = variables@.take(i + 1);
            assert(next.drop_last() =~= variables@.take(i as int));
            assert(next.last() == variables@[i as int]);
        }
        if !holds_bracket(variables[i].0.as_str()) {
            kept.push((variables[i].0.clone(), variables[i].1.clone()));
        }
        i += 1;
    }
    proof {
        assert(variables@.take(variables.len() as int) =~= variables@);
    }
    kept
}

/// The settings of the record store's connection pool.
#[derive(Debug)]
pub struct DbConfig {
    /// The connection string.
    pub url: String,
    /// The largest number of connections.
    pub pool: u32,
}

impl DbConfig {
    /// The settings that a connection string and a pool size make, each given
    /// as it was read: the first of the two that is missing is the error, and
    /// a size beyond `u32` is refused.
    pub open spec fn settings_of(
        url: Result<String, ::config::ConfigError>,
        pool: Result<u64, ::config::ConfigError>,
    ) -> Result<DbConfig, SettingsError> {
        match (url, pool) {
            (Err(cause), _) => Err(SettingsError::Url(cause)),
            (Ok(_), Err(cause)) => Err(SettingsError::Pool(cause)),
            (Ok(text), Ok(size)) => if size <= u32::MAX {
                Ok(DbConfig { url: text, pool: size as u32 })
            } else {
                Err(SettingsError::PoolTooLarge(size))
            },
        }
    }

    /// The settings that are read from what the variables were built into:
    /// the text under `url` and the number under `pool`.
    pub open spec fn read_from(settings: Result<::config::Config, ::config::ConfigError>) -> Result<
        DbConfig,
        SettingsError,
    > {
        match settings {
            Err(cause) => Err(SettingsError::Environment(cause)),
            Ok(held) => DbConfig::settings_of(
                text_under(held, url_key()),
                number_under(held, pool_key()),
            ),
        }
    }

    /// The settings that a connection string and a pool size make, as
    /// [`DbConfig::settings_of`] says.
    pub fn from_settings(
        url: Result<String, ::config::ConfigError>,
        pool: Result<u64, ::config::ConfigError>,
    ) -> (r: Result<DbConfig, SettingsError>)
        ensures
            r == DbConfig::settings_of(url, pool),
    {
        match url {
            Err(cause) => Err(SettingsError::Url(cause)),
            Ok(text) => match pool {
                Err(cause) => Err(SettingsError::Pool(cause)),
                Ok(size) => {
                    if size <= 0xffff_ffff {
                        Ok(DbConfig { url: text, pool: size as u32 })
                    } else {
                        Err(SettingsError::PoolTooLarge(size))
                    }
                },
            },
        }
    }

    /// Takes the settings of the record store from the variables of the
    /// environment: the connection string from `DATABASE_URL` and the pool
    /// size from `DATABASE_POOL`, the names in any case. Variables under
    /// another prefix, and variables with a bracket in the name, have no
    /// part in it.
    pub fn get(variables: Vec<(String, String)>) -> (r: Result<DbConfig, SettingsError>)
        ensures
            r == DbConfig::read_from(
                loaded(database_prefix(), variable_texts(plain(variables@))),
            ),
    {
        match load("DATABASE", plain_variables(&variables)) {
            Err(cause) => Err(SettingsError::Environment(cause)),
            Ok(settings) => {
                let url = setting_text(&settings, "url");
                let pool = setting_number(&settings, "pool");
                DbConfig::from_settings(url, pool)
            },
        }
    }
}

/// The settings of the cache's connection pool.
#[derive(Debug)]
pub struct RedisCfg {
    /// The connection string.
    pub url: String,
    /// The number of clients.
    pub pool: usize,
}

impl RedisCfg {
    /// The settings that a connection string and a pool size make, each given
    /// as it was read: the first of the two that is missing is the error, and
    /// a size beyond `usize` is refused.
    pub open spec fn settings_of(
        url: Result<String, ::config::ConfigError>,
        pool: Result<u64, ::config::ConfigError>,
    ) -> Result<RedisCfg, SettingsError> {
        match (url, pool) {
            (Err(cause), _) => Err(SettingsError::Url(cause)),
            (Ok(_), Err(cause)) => Err(SettingsError::Pool(cause)),
            (Ok(text), Ok(size)) => if size <= usize::MAX {
                Ok(RedisCfg { url: text, pool: size as usize })
            } else {
                Err(SettingsError::PoolTooLarge(size))
            },
        }
    }

    /// The settings that are read from what the variables were built into:
    /// the text under `url` and the number under `pool`.
    pub open spec fn read_from(settings: Result<::config::Config, ::config::ConfigError>) -> Result<
        RedisCfg,
        SettingsError,
    > {
        match settings {
            Err(cause) => Err(SettingsError::Environment(cause)),
            Ok(held) => RedisCfg::settings_of(
                text_under(held, url_key()),
                number_under(held, pool_key()),
            ),
        }
    }

    /// The settings that a connection string and a pool size make, as
    /// [`RedisCfg::settings_of`] says.
    pub fn from_settings(
        url: Result<String, ::config::ConfigError>,
        pool: Result<u64, ::config::ConfigError>,
    ) -> (r: Result<RedisCfg, SettingsError>)
        ensures
            r == RedisCfg::settings_of(url, pool),
    {
        match url {
            Err(cause) => Err(SettingsError::Url(cause)),
            Ok(text) => match pool {
                Err(cause) => Err(SettingsError::Pool(cause)),
                Ok(size) => {
                    if size <= usize::MAX as u64 {
                        Ok(RedisCfg { url: text, pool: size as usize })
                    } else {
                        Err(SettingsError::PoolTooLarge(size))
                    }
                },
            },
        }
    }

    /// Takes the settings of the cache from the variables of the environment:
    /// the connection string from `REDIS_URL` and the pool size from
    /// `REDIS_POOL`, the names in any case. Variables under another prefix,
    /// and variables with a bracket in the name, have no part in it.
    pub fn get(variables: Vec<(String, String)>) -> (r: Result<RedisCfg, SettingsError>)
        ensures
            r == RedisCfg::read_from(loaded(redis_prefix(), variable_texts(plain(variables@)))),
    {
        match load("REDIS", plain_variables(&variables)) {
            Err(cause) => Err(SettingsError::Environment(cause)),
            Ok(settings) => {
                let url = setting_text(&settings, "url");
                let pool = setting_number(&settings, "pool");
                RedisCfg::from_settings(url, pool)
            },
        }
    }
}

} // verus!
