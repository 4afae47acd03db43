use cce::config::Config;
use cce::ops::{
    mask_secret, mask_secret_prefix, AddOutcome, CheckOutcome, ClearOutcome, ProviderManager,
    RemoveOutcome, UseOutcome,
};

fn add(c: &mut Config, name: &str, url: &str, token: &str, model: Option<&str>) -> AddOutcome {
    ProviderManager::add_provider(
        c,
        name.to_string(),
        url.to_string(),
        token.to_string(),
        model.map(|m| m.to_string()),
    )
}

#[test]
fn ops_add_then_overwrite_warns() {
    let mut c = Config::empty();
    assert!(matches!(add(&mut c, "acme", "https://v1", "tok-1", None), AddOutcome::Added));
    assert!(matches!(add(&mut c, "acme", "https://v2", "tok-2", None), AddOutcome::Overwritten));
    assert_eq!(c.providers.len(), 1);
    assert_eq!(c.providers[0].api_url, "https://v2");
}

#[test]
fn ops_remove_unknown_is_noop() {
    let mut c = Config::empty();
    assert!(matches!(ProviderManager::remove_provider(&mut c, "nope"), RemoveOutcome::NotFound));
    add(&mut c, "acme", "u", "t", None);
    assert!(matches!(ProviderManager::remove_provider(&mut c, "acme"), RemoveOutcome::Removed));
    assert_eq!(c.providers.len(), 0);
}

#[test]
fn ops_use_unknown_is_noop() {
    let mut c = Config::empty();
    assert!(matches!(ProviderManager::use_provider(&mut c, "nope", false), UseOutcome::NotFound));
    assert!(c.current_provider.is_none());
}

#[test]
fn ops_use_switches_and_returns_provider() {
    let mut c = Config::empty();
    add(&mut c, "acme", "https://api.acme.test", "tok-12345678901", None);
    let r = ProviderManager::use_provider(&mut c, "acme", false);
    match r {
        UseOutcome::Switched { provider, commands } => {
            assert_eq!(provider.name, "acme");
            assert_eq!(provider.token, "tok-12345678901");
            assert!(commands.is_none());
        },
        _ => panic!("expected a switch"),
    }
    assert_eq!(c.current_provider.as_deref(), Some("acme"));
}

#[test]
fn ops_use_already_active_short_circuits_outside_bridge() {
    let mut c = Config::empty();
    add(&mut c, "acme", "u", "t", None);
    c.set_current_provider("acme");
    let r = ProviderManager::use_provider(&mut c, "acme", false);
    assert!(matches!(r, UseOutcome::AlreadyActive));
}

#[test]
fn ops_use_already_active_reemits_in_bridge_mode() {
    let mut c = Config::empty();
    add(&mut c, "acme", "https://u", "tok", None);
    c.set_current_provider("acme");
    let r = ProviderManager::use_provider(&mut c, "acme", true);
    match r {
        UseOutcome::Switched { commands, .. } => {
            let text = commands.expect("bridge mode emits the export commands");
            assert_eq!(
                text,
                "export ANTHROPIC_AUTH_TOKEN=\"tok\"\nexport ANTHROPIC_BASE_URL=\"https://u\""
            );
        },
        _ => panic!("bridge mode must not short-circuit"),
    }
}

#[test]
fn ops_clear_twice_second_is_noop() {
    let mut c = Config::empty();
    add(&mut c, "acme", "u", "t", None);
    c.set_current_provider("acme");
    let first = ProviderManager::clear_provider(&mut c, false);
    match first {
        ClearOutcome::Cleared { previous, commands } => {
            assert_eq!(previous, "acme");
            assert!(commands.is_none());
        },
        _ => panic!("first clear must clear"),
    }
    assert!(c.current_provider.is_none());
    let second = ProviderManager::clear_provider(&mut c, false);
    assert!(matches!(second, ClearOutcome::NothingActive));
    assert!(c.current_provider.is_none());
}

#[test]
fn ops_clear_in_bridge_mode_emits_unset() {
    let mut c = Config::empty();
    add(&mut c, "acme", "u", "t", None);
    c.set_current_provider("acme");
    let r = ProviderManager::clear_provider(&mut c, true);
    match r {
        ClearOutcome::Cleared { commands, .. } => {
            let text = commands.expect("bridge mode emits the unset commands");
            assert!(text.starts_with("unset ANTHROPIC_AUTH_TOKEN\n"));
            assert_eq!(text.split('\n').count(), 6);
        },
        _ => panic!("expected a clear"),
    }
}

#[test]
fn ops_check_no_providers_suggests_add() {
    let c = Config::empty();
    let r = ProviderManager::check_environment(&c, None, None);
    match r {
        CheckOutcome::NoSelection { have_providers } => assert!(!have_providers),
        _ => panic!("expected no selection"),
    }
}

#[test]
fn ops_check_no_selection_with_providers_suggests_use() {
    let mut c = Config::empty();
    add(&mut c, "acme", "u", "t", None);
    let r = ProviderManager::check_environment(&c, None, None);
    match r {
        CheckOutcome::NoSelection { have_providers } => assert!(have_providers),
        _ => panic!("expected no selection"),
    }
}

#[test]
fn ops_check_matching_environment() {
    let mut c = Config::empty();
    add(&mut c, "acme", "https://u", "tok", None);
    c.set_current_provider("acme");
    let r = ProviderManager::check_environment(&c, Some("tok"), Some("https://u"));
    match r {
        CheckOutcome::EnvMatches { provider } => assert_eq!(provider.name, "acme"),
        _ => panic!("expected a match"),
    }
}

#[test]
fn ops_check_mismatched_environment() {
    let mut c = Config::empty();
    add(&mut c, "acme", "https://u", "tok", None);
    c.set_current_provider("acme");
    let r = ProviderManager::check_environment(&c, Some("other"), Some("https://u"));
    assert!(matches!(r, CheckOutcome::EnvMismatch { .. }));
    let r = ProviderManager::check_environment(&c, None, Some("https://u"));
    assert!(matches!(r, CheckOutcome::EnvMismatch { .. }));
}

#[test]
fn ops_check_stale_selection() {
    let mut c = Config::empty();
    add(&mut c, "acme", "u", "t", None);
    c.set_current_provider("acme");
    c.providers.clear();
    let r = ProviderManager::check_environment(&c, None, None);
    match r {
        CheckOutcome::StaleSelection { name } => assert_eq!(name, "acme"),
        _ => panic!("expected a stale selection"),
    }
}

#[test]
fn ops_scenario_add_use_overwrite_remove_check() {
    let mut c = Config::empty();
    assert!(matches!(
        add(&mut c, "acme", "https://api.acme.test", "tok-12345678901", None),
        AddOutcome::Added
    ));
    assert!(c.contains_provider("acme"));
    let r = ProviderManager::use_provider(&mut c, "acme", false);
    match r {
        UseOutcome::Switched { provider, .. } => {
            let vars = cce::envsync::env_assignments(&provider);
            assert_eq!(vars[0].name, "ANTHROPIC_AUTH_TOKEN");
            assert_eq!(vars[0].value, "tok-12345678901");
        },
        _ => panic!("expected a switch"),
    }
    assert_eq!(c.current_provider.as_deref(), Some("acme"));
    assert!(matches!(
        add(&mut c, "acme", "https://v2.acme.test", "tok-2", None),
        AddOutcome::Overwritten
    ));
    assert_eq!(c.providers[0].api_url, "https://v2.acme.test");
    assert!(matches!(ProviderManager::remove_provider(&mut c, "acme"), RemoveOutcome::Removed));
    assert_eq!(c.providers.len(), 0);
    assert!(c.current_provider.is_none());
    let r = ProviderManager::check_environment(&c, None, None);
    match r {
        CheckOutcome::NoSelection { have_providers } => assert!(!have_providers),
        _ => panic!("expected no selection and an add suggestion"),
    }
}

#[test]
fn ops_mask_secret_shapes() {
    assert_eq!(mask_secret("tok-12345678901"), "tok-1234****");
    assert_eq!(mask_secret("12345678"), "****");
    assert_eq!(mask_secret(""), "****");
    assert_eq!(mask_secret_prefix("tok-12345678901"), "tok-1234****");
    assert_eq!(mask_secret_prefix("short"), "short****");
    assert_eq!(mask_secret_prefix("12345678"), "12345678****");
}

#[test]
fn ops_shellenv_embeds_binary_path() {
    let out = ProviderManager::render_shellenv("/usr/local/bin/cce");
    assert!(out.starts_with("cce() {\n    local cce_binary=\"/usr/local/bin/cce\"\n"));
    assert!(out.contains("CCE_SHELL_INTEGRATION=1 \"$cce_binary\" use \"$2\""));
    assert!(out.contains("CCE_SHELL_INTEGRATION=1 \"$cce_binary\" clear"));
    assert!(out.ends_with("}"));
}
