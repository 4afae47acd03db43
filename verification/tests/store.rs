use cce::config::Config;

fn sample(name: &str, url: &str, token: &str, model: Option<&str>) -> (String, String, String, Option<String>) {
    (name.to_string(), url.to_string(), token.to_string(), model.map(|m| m.to_string()))
}

#[test]
fn store_starts_empty() {
    let c = Config::empty();
    assert_eq!(c.providers.len(), 0);
    assert!(c.current_provider.is_none());
}

#[test]
fn store_add_inserts() {
    let mut c = Config::empty();
    let (n, u, t, m) = sample("acme", "https://api.acme.test", "tok", None);
    c.add_provider(n, u, t, m);
    assert_eq!(c.providers.len(), 1);
    assert!(c.contains_provider("acme"));
    assert_eq!(c.providers[0].name, "acme");
    assert_eq!(c.providers[0].api_url, "https://api.acme.test");
    assert_eq!(c.providers[0].token, "tok");
    assert!(c.providers[0].model.is_none());
}

#[test]
fn store_add_overwrites_same_name() {
    let mut c = Config::empty();
    let (n, u, t, m) = sample("acme", "https://v1", "tok-1", None);
    c.add_provider(n, u, t, m);
    let (n, u, t, m) = sample("acme", "https://v2", "tok-2", Some("mod"));
    c.add_provider(n, u, t, m);
    assert_eq!(c.providers.len(), 1);
    assert_eq!(c.providers[0].api_url, "https://v2");
    assert_eq!(c.providers[0].token, "tok-2");
    assert_eq!(c.providers[0].model.as_deref(), Some("mod"));
}

#[test]
fn store_remove_reports_existence() {
    let mut c = Config::empty();
    let (n, u, t, m) = sample("a", "u", "t", None);
    c.add_provider(n, u, t, m);
    assert!(c.remove_provider("a"));
    assert!(!c.remove_provider("a"));
    assert_eq!(c.providers.len(), 0);
}

#[test]
fn store_select_only_existing() {
    let mut c = Config::empty();
    let (n, u, t, m) = sample("a", "u", "t", None);
    c.add_provider(n, u, t, m);
    assert!(!c.set_current_provider("missing"));
    assert!(c.current_provider.is_none());
    assert!(c.set_current_provider("a"));
    assert_eq!(c.current_provider.as_deref(), Some("a"));
}

#[test]
fn store_remove_selected_clears_selection() {
    let mut c = Config::empty();
    let (n, u, t, m) = sample("a", "u", "t", None);
    c.add_provider(n, u, t, m);
    let (n, u, t, m) = sample("b", "u2", "t2", None);
    c.add_provider(n, u, t, m);
    assert!(c.set_current_provider("a"));
    assert!(c.remove_provider("a"));
    assert!(c.current_provider.is_none());
    assert_eq!(c.providers.len(), 1);
}

#[test]
fn store_remove_other_keeps_selection() {
    let mut c = Config::empty();
    let (n, u, t, m) = sample("a", "u", "t", None);
    c.add_provider(n, u, t, m);
    let (n, u, t, m) = sample("b", "u2", "t2", None);
    c.add_provider(n, u, t, m);
    assert!(c.set_current_provider("a"));
    assert!(c.remove_provider("b"));
    assert_eq!(c.current_provider.as_deref(), Some("a"));
}

#[test]
fn store_clear_is_idempotent() {
    let mut c = Config::empty();
    let (n, u, t, m) = sample("a", "u", "t", None);
    c.add_provider(n, u, t, m);
    c.set_current_provider("a");
    c.clear_current_provider();
    assert!(c.current_provider.is_none());
    c.clear_current_provider();
    assert!(c.current_provider.is_none());
    assert_eq!(c.providers.len(), 1);
}

#[test]
fn store_selection_names_existing_after_op_sequence() {
    let mut c = Config::empty();
    let (n, u, t, m) = sample("a", "u", "t", None);
    c.add_provider(n, u, t, m);
    let (n, u, t, m) = sample("b", "u2", "t2", None);
    c.add_provider(n, u, t, m);
    c.set_current_provider("b");
    let (n, u, t, m) = sample("c", "u3", "t3", Some("mm"));
    c.add_provider(n, u, t, m);
    c.remove_provider("a");
    if let Some(cur) = &c.current_provider {
        assert!(c.contains_provider(cur));
    }
    c.remove_provider("b");
    if let Some(cur) = &c.current_provider {
        assert!(c.contains_provider(cur));
    }
    assert!(c.current_provider.is_none());
}

#[test]
fn store_get_current_provider_follows_selection() {
    let mut c = Config::empty();
    assert!(c.get_current_provider().is_none());
    let (n, u, t, m) = sample("a", "u", "t", None);
    c.add_provider(n, u, t, m);
    assert!(c.get_current_provider().is_none());
    c.set_current_provider("a");
    let p = c.get_current_provider().expect("selected provider");
    assert_eq!(p.name, "a");
    assert_eq!(p.api_url, "u");
}

#[test]
fn store_get_current_provider_reports_stale_selection() {
    let mut c = Config::empty();
    let (n, u, t, m) = sample("a", "u", "t", None);
    c.add_provider(n, u, t, m);
    c.set_current_provider("a");
    // Simulate outside tampering with the persisted state.
    c.providers.clear();
    assert!(c.current_provider.is_some());
    assert!(c.get_current_provider().is_none());
}
