//! Configuration, read once at startup.
use crate::db::{copy_text, copy_texts};
use crate::text::{comma_list, listed, parse_unsigned, split_on, unsigned_value};
use vstd::prelude::*;

verus! {

#[derive(Debug)]
pub struct Config {
    pub database_url: String,
    pub bind: String,
    /// Origins allowed to call the read endpoints from a browser. The site is
    /// a static export served from Vercel, so its origin is not the API's.
    pub cors_origins: Vec<String>,
    /// Grants the admin endpoints. Unset disables them entirely rather than
    /// leaving them open, so a deployment that forgets the secret fails
    /// closed.
    pub admin_token: Option<String>,
    /// Largest workflow document accepted, in bytes.
    pub max_yaml_bytes: usize,
    /// Install writes allowed per client per window. Generous: a harness
    /// records one install per workflow it takes, so a legitimate client is
    /// nowhere near this, while inflating a count to the top of the library
    /// becomes something that has to be sustained rather than done once.
    pub install_rate_limit: u32,
    pub install_rate_window_secs: u64,
}

/// The variables the configuration is read from; each is there if it is set,
/// and set to valid text.
#[derive(Debug)]
pub struct EnvVars {
    pub database_url: Option<String>,
    pub bind_addr: Option<String>,
    pub cors_allow_origins: Option<String>,
    pub admin_token: Option<String>,
    pub max_yaml_bytes: Option<String>,
    pub install_rate_limit: Option<String>,
    pub install_rate_window_secs: Option<String>,
}

/// A variable that has to be set and is not.
#[derive(Debug)]
pub struct MissingVar(pub &'static str);

impl MissingVar {
    pub fn message(&self) -> (res: String)
        ensures
            res@ == self.0@ + " is required"@,
    {
        self.0.to_owned().concat(" is required")
    }
}

pub const DEFAULT_BIND: &'static str = "0.0.0.0:8080";

pub const DEFAULT_MAX_YAML_BYTES: usize = 262_144;

pub const DEFAULT_INSTALL_RATE_LIMIT: u32 = 60;

pub const DEFAULT_INSTALL_RATE_WINDOW_SECS: u64 = 60;

/// Room in a request body beside the document itself.
pub const BODY_OVERHEAD: usize = 65_536;

/// A text setting, or what it is without one.
pub open spec fn text_setting(value: Option<String>, default: Seq<char>) -> Seq<char> {
    match value {
        Some(v) => v@,
        None => default,
    }
}

/// A numeric setting of at most `max`, or what it is without one that can be
/// read.
pub open spec fn number_setting(value: Option<String>, max: nat, default: nat) -> nat {
    match value {
        Some(v) => match unsigned_value(v@, max) {
            Some(n) => n,
            None => default,
        },
        None => default,
    }
}

/// The configured admin token: an empty one counts as none.
pub open spec fn token_setting(value: Option<String>) -> Option<Seq<char>> {
    match value {
        Some(v) => if v@.len() == 0 {
            None
        } else {
            Some(v@)
        },
        None => None,
    }
}

fn number(value: &Option<String>, max: u64, default: u64) -> (res: u64)
    requires
        default <= max,
    ensures
        res == number_setting(*value, max as nat, default as nat),
        res <= max,
{
    match value {
        Some(v) => match parse_unsigned(v.as_str(), max) {
            Some(n) => n,
            None => default,
        },
        None => default,
    }
}

impl Config {
    /// The configuration that some variables make.
    pub fn from_env(vars: EnvVars) -> (res: std::result::Result<Self, MissingVar>)
        ensures
            match vars.database_url {
                Some(url) => res matches Ok(config) && {
                    &&& config.database_url@ == url@
                    &&& config.bind@ == text_setting(vars.bind_addr, DEFAULT_BIND@)
                    &&& config.cors_origins.deep_view() == listed(
                        split_on(text_setting(vars.cors_allow_origins, Seq::empty()), ','),
                    )
                    &&& config.admin_token.deep_view() == token_setting(vars.admin_token)
                    &&& config.max_yaml_bytes == number_setting(
                        vars.max_yaml_bytes,
                        usize::MAX as nat,
                        DEFAULT_MAX_YAML_BYTES as nat,
                    )
                    &&& config.install_rate_limit == number_setting(
                        vars.install_rate_limit,
                        u32::MAX as nat,
                        DEFAULT_INSTALL_RATE_LIMIT as nat,
                    )
                    &&& config.install_rate_window_secs == number_setting(
                        vars.install_rate_window_secs,
                        u64::MAX as nat,
                        DEFAULT_INSTALL_RATE_WINDOW_SECS as nat,
                    )
                },
                None => res matches Err(missing) && missing.0@ == "DATABASE_URL"@,
            },
    {
        let database_url = match vars.database_url {
            Some(url) => url,
            None => {
                return Err(MissingVar("DATABASE_URL"));
            },
        };
        let bind = match vars.bind_addr {
            Some(addr) => addr,
            None => DEFAULT_BIND.to_owned(),
        };
        let origins = match vars.cors_allow_origins {
            Some(origins) => origins,
            None => String::new(),
        };
        let admin_token = match vars.admin_token {
            Some(token) => if token.as_str().is_empty() {
                None
            } else {
                Some(token)
            },
            None => None,
        };
        Ok(
            Config {
                database_url,
                bind,
                cors_origins: comma_list(origins.as_str()),
                admin_token,
                max_yaml_bytes: number(
                    &vars.max_yaml_bytes,
                    usize::MAX as u64,
                    DEFAULT_MAX_YAML_BYTES as u64,
                ) as usize,
                install_rate_limit: number(
                    &vars.install_rate_limit,
                    u32::MAX as u64,
                    DEFAULT_INSTALL_RATE_LIMIT as u64,
                ) as u32,
                install_rate_window_secs: number(
                    &vars.install_rate_window_secs,
                    u64::MAX,
                    DEFAULT_INSTALL_RATE_WINDOW_SECS,
                ),
            },
        )
    }

    /// The largest request body taken in. It bounds the body before a handler
    /// sees it, so an oversized document is refused at the edge rather than
    /// after being buffered; the limit on the document itself is the finer
    /// check on top.
    pub fn body_limit(&self) -> (res: usize)
        requires
            self.max_yaml_bytes + BODY_OVERHEAD <= usize::MAX,
        ensures
            res == self.max_yaml_bytes + BODY_OVERHEAD,
    {
        self.max_yaml_bytes + BODY_OVERHEAD
    }
}

impl Clone for Config {
    fn clone(&self) -> (res: Self)
        ensures
            res.database_url == self.database_url,
            res.bind == self.bind,
            res.cors_origins@ == self.cors_origins@,
            res.admin_token == self.admin_token,
            res.max_yaml_bytes == self.max_yaml_bytes,
            res.install_rate_limit == self.install_rate_limit,
            res.install_rate_window_secs == self.install_rate_window_secs,
    {
        Config {
            database_url: self.database_url.clone(),
            bind: self.bind.clone(),
            cors_origins: copy_texts(&self.cors_origins),
            admin_token: copy_text(&self.admin_token),
            max_yaml_bytes: self.max_yaml_bytes,
            install_rate_limit: self.install_rate_limit,
            install_rate_window_secs: self.install_rate_window_secs,
        }
    }
}

/// A deployment that forgets the admin token, or leaves it empty, has no admin
/// surface at all: it fails closed.
pub proof fn a_forgotten_admin_token_fails_closed(
    value: Option<String>,
    presented: Option<Seq<char>>,
)
    requires
        value is Some ==> value->0@.len() == 0,
    ensures
        token_setting(value) is None,
        crate::auth::admin_verdict(token_setting(value), presented) is Err,
        crate::auth::admin_verdict(token_setting(value), presented)->Err_0.status() == 404,
{
}

/// No origin of the list is blank, and each is free of white space around it.
pub proof fn configured_origins_are_tight(pieces: Seq<Seq<char>>, i: int)
    requires
        0 <= i < listed(pieces).len(),
    ensures
        listed(pieces)[i].len() > 0,
        !crate::text::is_white_space(listed(pieces)[i][0]),
        !crate::text::is_white_space(listed(pieces)[i].last()),
    decreases pieces.len(),
{
    let before = listed(pieces.drop_last());
    crate::text::trimmed_text_is_tight(pieces.last());
    if i < before.len() {
        configured_origins_are_tight(pieces.drop_last(), i);
    }
}

} // verus!
