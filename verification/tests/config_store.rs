use goeie::config::{
    get_config, get_host_config, ConfigError, ConfigStore, HostLookupError, CONFIG_TTL_MS,
};
use goeie::models::{Config, PathPolicy, RedirectConfiguration, RedirectType};

fn rule(hosts: &[&str], target: &str) -> RedirectConfiguration {
    RedirectConfiguration {
        hosts: hosts.iter().map(|h| h.to_string()).collect(),
        target: target.to_string(),
        redirect_type: Some(RedirectType::Temporary),
        path: Some(PathPolicy::Remove),
    }
}

fn config_with(rules: Vec<RedirectConfiguration>) -> Config {
    Config { redirect: rules, ports: None, tls: None }
}

#[test]
fn host_in_exactly_one_rule_resolves_to_it() {
    let mut store = ConfigStore::new();
    let cfg = config_with(vec![
        rule(&["x.example.com"], "https://x.invalid"),
        rule(&["a.example.com", "b.example.com"], "https://target.invalid"),
        rule(&["c.example.com"], "https://c.invalid"),
    ]);
    let got = get_host_config(&mut store, &"a.example.com".to_string(), 0, Some(Ok(cfg)));
    let rc = got.unwrap();
    assert_eq!(rc.target, "https://target.invalid");
    assert_eq!(rc.hosts, vec!["a.example.com".to_string(), "b.example.com".to_string()]);
}

#[test]
fn host_absent_from_all_rules_is_not_found() {
    let mut store = ConfigStore::new();
    let cfg = config_with(vec![rule(&["a.example.com"], "https://a.invalid")]);
    let got = get_host_config(&mut store, &"zzz.example.com".to_string(), 0, Some(Ok(cfg)));
    assert!(matches!(got, Err(HostLookupError::HostNotFound)));
}

#[test]
fn first_matching_rule_wins() {
    let mut store = ConfigStore::new();
    let cfg = config_with(vec![
        rule(&["dup.example.com"], "https://first.invalid"),
        rule(&["dup.example.com"], "https://second.invalid"),
    ]);
    let got = get_host_config(&mut store, &"dup.example.com".to_string(), 0, Some(Ok(cfg)));
    assert_eq!(got.unwrap().target, "https://first.invalid");
}

#[test]
fn reads_within_ttl_serve_the_cached_snapshot() {
    let mut store = ConfigStore::new();
    let first = config_with(vec![rule(&["a.example.com"], "https://old.invalid")]);
    let changed = config_with(vec![rule(&["a.example.com"], "https://new.invalid")]);

    let r1 = get_config(&mut store, 1000, Some(Ok(first))).unwrap();
    assert!(!store.needs_reload(1000 + CONFIG_TTL_MS - 1));
    // The backing file has changed, but the window has not passed: the
    // cached snapshot is served and the fresh parse is ignored.
    let r2 = get_config(&mut store, 1000 + CONFIG_TTL_MS - 1, Some(Ok(changed))).unwrap();
    assert_eq!(r1.redirect[0].target, r2.redirect[0].target);
    assert_eq!(r2.redirect[0].target, "https://old.invalid");
}

#[test]
fn read_past_ttl_reflects_the_updated_file() {
    let mut store = ConfigStore::new();
    let first = config_with(vec![rule(&["a.example.com"], "https://old.invalid")]);
    let changed = config_with(vec![rule(&["a.example.com"], "https://new.invalid")]);

    get_config(&mut store, 1000, Some(Ok(first))).unwrap();
    assert!(store.needs_reload(1000 + CONFIG_TTL_MS));
    let r2 = get_config(&mut store, 1000 + CONFIG_TTL_MS, Some(Ok(changed))).unwrap();
    assert_eq!(r2.redirect[0].target, "https://new.invalid");
}

#[test]
fn failed_reload_keeps_last_known_good_and_surfaces_error() {
    let mut store = ConfigStore::new();
    let first = config_with(vec![rule(&["a.example.com"], "https://old.invalid")]);
    get_config(&mut store, 0, Some(Ok(first))).unwrap();

    let late = CONFIG_TTL_MS + 5;
    let err = get_config(&mut store, late, Some(Err("broken toml".to_string())));
    match err {
        Err(ConfigError::Load(m)) => assert_eq!(m, "broken toml"),
        other => panic!("expected a load error, got {:?}", other.is_ok()),
    }
    // The stale snapshot was not cleared: a read within the TTL of a
    // later successful reload still works, and the cache still holds
    // the old snapshot (it is expired, so a reload outcome is needed;
    // handing none reports NotLoaded rather than serving anything torn).
    let none = get_config(&mut store, late, None);
    assert!(matches!(none, Err(ConfigError::NotLoaded)));
    let again = get_config(
        &mut store,
        late,
        Some(Ok(config_with(vec![rule(&["a.example.com"], "https://old.invalid")]))),
    );
    assert_eq!(again.unwrap().redirect[0].target, "https://old.invalid");
}

#[test]
fn empty_store_without_reload_outcome_is_not_loaded() {
    let mut store = ConfigStore::new();
    assert!(store.needs_reload(0));
    let got = get_config(&mut store, 0, None);
    assert!(matches!(got, Err(ConfigError::NotLoaded)));
}

#[test]
fn config_error_message_carries_load_detail() {
    let e = ConfigError::Load("no such file".to_string());
    assert_eq!(e.message(), "no such file");
}
