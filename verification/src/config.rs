//! The core [`AppConfig`] section: database URL and where the HTTP server listens.

use vstd::prelude::*;

use crate::capability::{Cons, GetByTag, Nil, Tagged};
use crate::text::to_owned;

verus! {

/// Capability tag for the aggregated config sections.
pub struct ConfigTag;

/// Tag for the core [`AppConfig`] section (document root).
pub struct AppConfigTag;

/// Marks a config tag with its TOML location.
pub trait ConfigSection {
    /// Table name, or `None` to read from the document root.
    const KEY: Option<&'static str>;
}

impl ConfigSection for AppConfigTag {
    const KEY: Option<&'static str> = None;
}

/// Default database: a SQLite file created on first use.
pub const DEFAULT_DATABASE_URL: &'static str = "sqlite://data/lariv.db?mode=rwc";

/// Default `bind` of a fresh configuration.
pub const DEFAULT_BIND: &'static str = "127.0.0.1:3000";

/// Address used when `bind` is unset.
pub const FALLBACK_BIND: &'static str = "0.0.0.0:3000";

/// Core application configuration (TOML document root).
#[derive(Debug, Clone)]
pub struct AppConfig {
    pub database_url: String,
    pub bind: Option<String>,
    /// Unix domain socket path; when set and non-empty, overrides `bind`.
    pub uds: Option<String>,
}

/// Where the HTTP server should listen.
#[derive(Debug, Clone, PartialEq, Eq)]
pub enum BindTarget {
    /// TCP socket address text (e.g. `0.0.0.0:3000`), parsed by the server.
    Tcp(String),
    /// Unix domain socket path.
    Uds(String),
}

/// `Option<String>` as an optional character sequence.
pub open spec fn opt_view(o: Option<String>) -> Option<Seq<char>> {
    match o {
        Some(s) => Some(s@),
        None => None,
    }
}

impl Default for AppConfig {
    fn default() -> (r: Self)
        ensures
            r.database_url@ == DEFAULT_DATABASE_URL@,
            opt_view(r.bind) == Some(DEFAULT_BIND@),
            r.uds is None,
    {
        AppConfig { database_url: to_owned(DEFAULT_DATABASE_URL), bind: Some(to_owned(DEFAULT_BIND)), uds: None }
    }
}

/// The bind address: `bind`, or `0.0.0.0:3000` when unset.
pub open spec fn bind_addr_spec(bind: Option<Seq<char>>) -> Seq<char> {
    match bind {
        Some(b) => b,
        None => FALLBACK_BIND@,
    }
}

/// The listen target: a non-empty `uds` wins over the TCP address.
pub open spec fn bind_target_spec(bind: Option<Seq<char>>, uds: Option<Seq<char>>) -> (bool, Seq<char>) {
    match uds {
        Some(u) if u.len() > 0 => (true, u),
        _ => (false, bind_addr_spec(bind)),
    }
}

impl AppConfig {
    /// HTTP bind address, defaulting to `0.0.0.0:3000` when `bind` is unset.
    pub fn bind_addr(&self) -> (r: &str)
        ensures
            r@ == bind_addr_spec(opt_view(self.bind)),
    {
        match &self.bind {
            Some(b) => b.as_str(),
            None => FALLBACK_BIND,
        }
    }

    /// Resolve the listen target: a non-empty `uds` wins over TCP `bind`.
    pub fn bind_target(&self) -> (r: BindTarget)
        ensures
            match r {
                BindTarget::Uds(p) => bind_target_spec(opt_view(self.bind), opt_view(self.uds)) == (true, p@),
                BindTarget::Tcp(a) => bind_target_spec(opt_view(self.bind), opt_view(self.uds)) == (false, a@),
            },
    {
        match &self.uds {
            Some(path) => {
                if !path.as_str().is_empty() {
                    return BindTarget::Uds(path.clone());
                }
            },
            None => {},
        }
        BindTarget::Tcp(to_owned(self.bind_addr()))
    }

    /// Apply the `DATABASE_URL`, `BIND` and `UDS` environment overrides (each when set).
    pub fn with_env_overrides(self, database_url: Option<String>, bind: Option<String>, uds: Option<String>) -> (r: Self)
        ensures
            r.database_url@ == match database_url {
                Some(u) => u@,
                None => self.database_url@,
            },
            opt_view(r.bind) == match bind {
                Some(b) => Some(b@),
                None => opt_view(self.bind),
            },
            opt_view(r.uds) == match uds {
                Some(u) => Some(u@),
                None => opt_view(self.uds),
            },
    {
        let mut cfg = self;
        match database_url {
            Some(u) => cfg.database_url = u,
            None => {},
        }
        match bind {
            Some(b) => cfg.bind = Some(b),
            None => {},
        }
        match uds {
            Some(u) => cfg.uds = Some(u),
            None => {},
        }
        cfg
    }
}

/// The configuration capability: the registered configuration sections.
pub struct ConfigCapability<Configs> {
    pub configs: Configs,
}

impl ConfigCapability<Nil> {
    /// No sections yet.
    pub fn new() -> (r: Self)
        ensures
            r.configs == Nil,
    {
        ConfigCapability { configs: Nil }
    }
}

impl<Configs> ConfigCapability<Configs> {
    /// The capability with the section `value`, tagged `Tag`, in front.
    pub fn prepend<Tag, V>(self, value: V) -> (r: ConfigCapability<Cons<Tagged<Tag, V>, Configs>>)
        ensures
            r.configs.head.value == value,
            r.configs.tail == self.configs,
    {
        ConfigCapability { configs: Cons { head: Tagged::new(value), tail: self.configs } }
    }

    /// The section tagged `Tag`.
    pub fn get<Tag, Index>(&self) -> (r: &<Configs as GetByTag<Tag, Index>>::Value)
        where Configs: GetByTag<Tag, Index>,
        ensures
            *r == <Configs as GetByTag<Tag, Index>>::tagged(&self.configs),
    {
        self.configs.get_by_tag()
    }
}

} // verus!
