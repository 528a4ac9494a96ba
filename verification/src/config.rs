//! The TTL-cached configuration store and the host lookup it feeds.
//!
//! The store owns at most one cached snapshot. A snapshot is valid for
//! [`CONFIG_TTL_MS`] milliseconds after it was loaded; while it is valid
//! every read serves it unchanged, whatever the backing file does
//! meanwhile. On expiry the caller reloads the backing file and hands the
//! parse outcome in; a failed parse surfaces as an error and leaves the
//! last known good snapshot in place. The whole behaviour is the spec
//! transition [`spec_step`], which both read paths are proved to follow.
//!
//! The store is built once and handed by reference to every consumer; the
//! caller serialises reloads (one exclusive borrow at a time), so a reader
//! can never observe a half-written snapshot — see
//! [`lemma_no_torn_snapshot`].

use vstd::prelude::*;

use crate::models::{Config, RedirectConfiguration, SpecConfig, SpecRedirect};

verus! {

/// How long a cached snapshot stays valid, in milliseconds.
pub const CONFIG_TTL_MS: u64 = 300000;

/// A cached snapshot together with the time it was loaded.
#[derive(Debug)]
pub struct CacheEntry {
    pub loaded_at_ms: u64,
    pub config: Config,
}

/// Mathematical image of a cache entry.
pub struct SpecCacheEntry {
    pub loaded_at_ms: u64,
    pub config: SpecConfig,
}

impl View for CacheEntry {
    type V = SpecCacheEntry;

    open spec fn view(&self) -> SpecCacheEntry {
        SpecCacheEntry { loaded_at_ms: self.loaded_at_ms, config: self.config@ }
    }
}

/// Mathematical image of the whole store.
pub struct SpecStore {
    pub cache: Option<SpecCacheEntry>,
}

/// The TTL-cached configuration store.
#[derive(Debug)]
pub struct ConfigStore {
    cache: Option<CacheEntry>,
}

impl View for ConfigStore {
    type V = SpecStore;

    closed spec fn view(&self) -> SpecStore {
        SpecStore {
            cache: match self.cache {
                Some(e) => Some(e@),
                None => None,
            },
        }
    }
}

/// Whether the cached snapshot of `s` is still valid at `now_ms`.
pub open spec fn store_valid_at(s: SpecStore, now_ms: u64) -> bool {
    match s.cache {
        Some(e) => e.loaded_at_ms <= now_ms && now_ms < e.loaded_at_ms + CONFIG_TTL_MS,
        None => false,
    }
}

/// A configuration could not be produced.
#[derive(Debug)]
pub enum ConfigError {
    /// The cache was empty or expired and no reload outcome was supplied.
    NotLoaded,
    /// The backing file could not be read or parsed; the message says why.
    Load(String),
}

/// Mathematical image of a configuration error.
pub enum SpecConfigError {
    NotLoaded,
    Load(Seq<char>),
}

impl View for ConfigError {
    type V = SpecConfigError;

    open spec fn view(&self) -> SpecConfigError {
        match self {
            ConfigError::NotLoaded => SpecConfigError::NotLoaded,
            ConfigError::Load(m) => SpecConfigError::Load(m@),
        }
    }
}

impl ConfigError {
    /// A short description, for logs and error bodies.
    pub fn message(&self) -> (r: String)
        ensures
            self matches ConfigError::Load(m) ==> r@ == m@,
            self matches ConfigError::NotLoaded ==> r@ == "configuration not loaded"@,
    {
        match self {
            ConfigError::NotLoaded => String::from_str("configuration not loaded"),
            ConfigError::Load(m) => m.clone(),
        }
    }
}

/// Mathematical image of a freshly supplied reload outcome.
pub open spec fn fresh_view(fresh: Option<Result<Config, String>>) -> Option<
    Result<SpecConfig, Seq<char>>,
> {
    match fresh {
        None => None,
        Some(Ok(c)) => Some(Ok(c@)),
        Some(Err(m)) => Some(Err(m@)),
    }
}

/// Mathematical image of a configuration read.
pub open spec fn config_result_view(r: Result<Config, ConfigError>) -> Result<
    SpecConfig,
    SpecConfigError,
> {
    match r {
        Ok(c) => Ok(c@),
        Err(e) => Err(e@),
    }
}

/// What one read does to the store: within the TTL the cached snapshot is
/// served and nothing changes; past it, a successful reload replaces the
/// cache wholesale with a fresh entry stamped `now_ms`, and a failed or
/// absent reload leaves the cache as it was and surfaces an error.
pub open spec fn spec_step(
    s: SpecStore,
    now_ms: u64,
    fresh: Option<Result<SpecConfig, Seq<char>>>,
) -> (SpecStore, Result<SpecConfig, SpecConfigError>) {
    if store_valid_at(s, now_ms) {
        (s, Ok(s.cache->0.config))
    } else {
        match fresh {
            None => (s, Err(SpecConfigError::NotLoaded)),
            Some(Err(m)) => (s, Err(SpecConfigError::Load(m))),
            Some(Ok(c)) => (
                SpecStore { cache: Some(SpecCacheEntry { loaded_at_ms: now_ms, config: c }) },
                Ok(c),
            ),
        }
    }
}

/// Whether one rule claims `host`: the exact bytes of the `Host` header
/// must equal one of the rule's host names, with no normalisation.
pub open spec fn rule_matches(r: SpecRedirect, host: Seq<char>) -> bool {
    exists|i: int| 0 <= i < r.hosts.len() && r.hosts[i] == host
}

/// The first rule in order that claims `host`, if any: first match wins.
pub open spec fn first_match(rules: Seq<SpecRedirect>, host: Seq<char>) -> Option<SpecRedirect>
    decreases rules.len(),
{
    if rules.len() == 0 {
        None
    } else if rule_matches(rules[0], host) {
        Some(rules[0])
    } else {
        first_match(rules.drop_first(), host)
    }
}

/// A host was resolved against a configuration read.
#[derive(Debug)]
pub enum HostLookupError {
    /// The configuration itself could not be produced.
    Config(ConfigError),
    /// No rule claims the host.
    HostNotFound,
}

/// Mathematical image of a host lookup error.
pub enum SpecLookupError {
    Config(SpecConfigError),
    HostNotFound,
}

impl View for HostLookupError {
    type V = SpecLookupError;

    open spec fn view(&self) -> SpecLookupError {
        match self {
            HostLookupError::Config(e) => SpecLookupError::Config(e@),
            HostLookupError::HostNotFound => SpecLookupError::HostNotFound,
        }
    }
}

/// Mathematical image of a host lookup.
pub open spec fn lookup_result_view(r: Result<RedirectConfiguration, HostLookupError>) -> Result<
    SpecRedirect,
    SpecLookupError,
> {
    match r {
        Ok(rc) => Ok(rc@),
        Err(e) => Err(e@),
    }
}

/// What a host lookup returns for a given configuration read: the first
/// matching rule of a produced snapshot, `HostNotFound` when no rule
/// claims the host, and the configuration error otherwise.
pub open spec fn spec_host_lookup(
    cfg: Result<SpecConfig, SpecConfigError>,
    host: Seq<char>,
) -> Result<SpecRedirect, SpecLookupError> {
    match cfg {
        Err(e) => Err(SpecLookupError::Config(e)),
        Ok(c) => match first_match(c.redirect, host) {
            Some(rule) => Ok(rule),
            None => Err(SpecLookupError::HostNotFound),
        },
    }
}

/// Whether `hosts` holds the exact string `host`.
fn host_list_contains(hosts: &Vec<String>, host: &String) -> (b: bool)
    ensures
        b == exists|i: int| 0 <= i < hosts.deep_view().len() && hosts.deep_view()[i] == host@,
{
    let n = hosts.len();
    for i in 0..n
        invariant
            n == hosts.len(),
            forall|k: int| 0 <= k < i ==> hosts.deep_view()[k] != host@,
    {
        if hosts[i] == *host {
            proof {
                assert(hosts.deep_view()[i as int] == host@);
            }
            return true;
        }
    }
    false
}

/// Scan the rules of one snapshot in order and return the first that
/// claims `host`: the linear first-match-wins resolution.
pub fn find_host_rule(config: &Config, host: &String) -> (r: Option<RedirectConfiguration>)
    ensures
        match r {
            Some(rc) => first_match(config@.redirect, host@) == Some(rc@),
            None => first_match(config@.redirect, host@) is None,
        },
{
    let ghost rules = config@.redirect;
    proof {
        assert(rules.skip(0) =~= rules);
    }
    let n = config.redirect.len();
    for i in 0..n
        invariant
            n == config.redirect.len(),
            rules == config@.redirect,
            first_match(rules, host@) == first_match(rules.skip(i as int), host@),
    {
        proof {
            assert(rules.skip(i as int)[0] == rules[i as int]);
            assert(rules[i as int] == config.redirect@[i as int]@);
        }
        if host_list_contains(&config.redirect[i].hosts, host) {
            proof {
                assert(rules[i as int].hosts == config.redirect@[i as int]@.hosts);
                assert(rule_matches(rules[i as int], host@));
            }
            return Some(config.redirect[i].clone());
        }
        proof {
            assert(!rule_matches(rules[i as int], host@));
            assert(rules.skip(i as int).drop_first() =~= rules.skip(i as int + 1));
        }
    }
    proof {
        assert(rules.skip(n as int).len() == 0);
    }
    None
}

impl ConfigStore {
    /// A store with an empty cache: the first read must supply a reload
    /// outcome.
    pub fn new() -> (r: Self)
        ensures
            r@.cache is None,
    {
        ConfigStore { cache: None }
    }

    /// Whether the next read needs a reload outcome: true when the cache
    /// is empty or its snapshot has outlived the TTL at `now_ms`.
    pub fn needs_reload(&self, now_ms: u64) -> (b: bool)
        ensures
            b == !store_valid_at(self@, now_ms),
    {
        match &self.cache {
            Some(e) => !(e.loaded_at_ms <= now_ms && now_ms - e.loaded_at_ms < CONFIG_TTL_MS),
            None => true,
        }
    }

}

/// Serve the configuration at `now_ms`. `fresh` is the outcome of
/// re-reading and re-parsing the backing file, to be supplied exactly
/// when [`ConfigStore::needs_reload`] says so; within the TTL it is
/// ignored. The read follows [`spec_step`]: the snapshot is served
/// unchanged while valid, replaced wholesale on a successful reload, and
/// kept (last known good) when a reload fails.
pub fn get_config(store: &mut ConfigStore, now_ms: u64, fresh: Option<Result<Config, String>>) -> (
    r: Result<Config, ConfigError>)
    ensures
        ({
            let step = spec_step(old(store)@, now_ms, fresh_view(fresh));
            final(store)@ == step.0 && config_result_view(r) == step.1
        }),
{
    let valid = !store.needs_reload(now_ms);
    if valid {
        match &store.cache {
            Some(e) => Ok(e.config.clone()),
            None => unreached(),
        }
    } else {
        match fresh {
            None => Err(ConfigError::NotLoaded),
            Some(Err(m)) => Err(ConfigError::Load(m)),
            Some(Ok(c)) => {
                store.cache = Some(CacheEntry { loaded_at_ms: now_ms, config: c.clone() });
                Ok(c)
            },
        }
    }
}

/// Resolve a `Host` header against the configuration at `now_ms`: serve
/// or reload the snapshot as [`get_config`] does, then return the first
/// rule in order that claims the host.
pub fn get_host_config(
    store: &mut ConfigStore,
    host: &String,
    now_ms: u64,
    fresh: Option<Result<Config, String>>,
) -> (r: Result<RedirectConfiguration, HostLookupError>)
    ensures
        ({
            let step = spec_step(old(store)@, now_ms, fresh_view(fresh));
            final(store)@ == step.0 && lookup_result_view(r) == spec_host_lookup(step.1, host@)
        }),
{
    match get_config(store, now_ms, fresh) {
        Err(e) => Err(HostLookupError::Config(e)),
        Ok(c) => match find_host_rule(&c, host) {
            Some(rc) => Ok(rc),
            None => Err(HostLookupError::HostNotFound),
        },
    }
}

/// A host claimed by exactly one rule resolves to that rule, and a host
/// claimed by none resolves to nothing, whatever the rule order.
pub proof fn lemma_host_lookup_unique(rules: Seq<SpecRedirect>, host: Seq<char>, i: int)
    requires
        0 <= i < rules.len(),
        rule_matches(rules[i], host),
        forall|k: int| 0 <= k < rules.len() && k != i ==> !rule_matches(rules[k], host),
    ensures
        first_match(rules, host) == Some(rules[i]),
    decreases i,
{
    if i == 0 {
    } else {
        assert(!rule_matches(rules[0], host));
        lemma_host_lookup_unique(rules.drop_first(), host, i - 1);
        assert(rules.drop_first()[i - 1] == rules[i]);
    }
}

/// A host absent from every rule's host set resolves to nothing.
pub proof fn lemma_host_lookup_absent(rules: Seq<SpecRedirect>, host: Seq<char>)
    requires
        forall|k: int| 0 <= k < rules.len() ==> !rule_matches(rules[k], host),
    ensures
        first_match(rules, host) is None,
    decreases rules.len(),
{
    if rules.len() > 0 {
        lemma_host_lookup_absent(rules.drop_first(), host);
    }
}

/// The cache property: two reads within the TTL window return the same
/// snapshot, whatever reload outcomes `f1` and `f2` the backing file
/// would have produced meanwhile; and a read past the TTL with a freshly
/// parsed snapshot returns exactly that snapshot and caches it at its
/// read time.
pub proof fn lemma_cache_stable(
    s: SpecStore,
    n1: u64,
    n2: u64,
    f1: Option<Result<SpecConfig, Seq<char>>>,
    f2: Option<Result<SpecConfig, Seq<char>>>,
    c: SpecConfig,
)
    ensures
        store_valid_at(s, n1) && store_valid_at(spec_step(s, n1, f1).0, n2) ==> spec_step(
            s,
            n1,
            f1,
        ).1 == spec_step(spec_step(s, n1, f1).0, n2, f2).1,
        !store_valid_at(s, n2) ==> spec_step(s, n2, Some(Ok(c))) == (
            SpecStore { cache: Some(SpecCacheEntry { loaded_at_ms: n2, config: c }) },
            Ok::<SpecConfig, SpecConfigError>(c),
        ),
{
}

/// No torn snapshot: whatever a read does, the cache afterwards is either
/// the old entry whole or a complete new entry; readers that each hold
/// the store exclusively for the span of one read can therefore never
/// observe a partially written configuration.
pub proof fn lemma_no_torn_snapshot(
    s: SpecStore,
    now_ms: u64,
    fresh: Option<Result<SpecConfig, Seq<char>>>,
)
    ensures
        spec_step(s, now_ms, fresh).0.cache == s.cache || (fresh matches Some(Ok(c))
            && spec_step(s, now_ms, fresh).0.cache == Some(
            SpecCacheEntry { loaded_at_ms: now_ms, config: c },
        )),
{
}

} // verus!
