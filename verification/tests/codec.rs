use cce::codec::StoreError;
use cce::config::Config;

fn add(c: &mut Config, name: &str, url: &str, token: &str, model: Option<&str>) {
    c.add_provider(
        name.to_string(),
        url.to_string(),
        token.to_string(),
        model.map(|m| m.to_string()),
    );
}

fn assert_configs_equal(a: &Config, b: &Config) {
    assert_eq!(a.current_provider, b.current_provider);
    assert_eq!(a.providers.len(), b.providers.len());
    for (pa, pb) in a.providers.iter().zip(b.providers.iter()) {
        assert_eq!(pa.name, pb.name);
        assert_eq!(pa.api_url, pb.api_url);
        assert_eq!(pa.token, pb.token);
        assert_eq!(pa.model, pb.model);
    }
}

fn round_trip(c: &Config) -> Config {
    let text = c.save_to_string();
    let back = Config::load_from_string(&text).expect("rendered text must parse");
    assert_configs_equal(c, &back);
    back
}

#[test]
fn codec_round_trip_empty() {
    let c = Config::empty();
    assert_eq!(c.save_to_string(), "");
    round_trip(&c);
}

#[test]
fn codec_round_trip_single_provider_no_selection() {
    let mut c = Config::empty();
    add(&mut c, "acme", "https://api.acme.test", "tok-12345678901", None);
    round_trip(&c);
}

#[test]
fn codec_round_trip_multi_provider_with_selection_and_model() {
    let mut c = Config::empty();
    add(&mut c, "acme", "https://api.acme.test", "tok-1", None);
    add(&mut c, "beta", "https://beta.example", "tok-2", Some("model-x"));
    add(&mut c, "gamma", "https://gamma.example", "tok-3", None);
    c.set_current_provider("beta");
    round_trip(&c);
}

#[test]
fn codec_round_trip_keeps_secrets_verbatim() {
    let mut c = Config::empty();
    add(
        &mut c,
        "odd",
        "https://u",
        "se\\cret \"quoted\" [[providers]]\nmodel = \"x\"",
        Some("m\"o\\d"),
    );
    c.set_current_provider("odd");
    let back = round_trip(&c);
    assert_eq!(back.providers[0].token, "se\\cret \"quoted\" [[providers]]\nmodel = \"x\"");
    assert_eq!(back.providers[0].model.as_deref(), Some("m\"o\\d"));
}

#[test]
fn codec_round_trip_dangling_selection() {
    // A selection pointing at no provider still persists faithfully; only
    // the check operation judges it stale.
    let c = Config { providers: Vec::new(), current_provider: Some("ghost".to_string()) };
    let back = round_trip(&c);
    assert_eq!(back.current_provider.as_deref(), Some("ghost"));
}

#[test]
fn codec_rendered_shape_is_exact() {
    let mut c = Config::empty();
    add(&mut c, "acme", "https://api.acme.test", "tok", Some("m1"));
    c.set_current_provider("acme");
    let expected = "current_provider = \"acme\"\n[[providers]]\nname = \"acme\"\napi_url = \"https://api.acme.test\"\ntoken = \"tok\"\nmodel = \"m1\"\n";
    assert_eq!(c.save_to_string(), expected);
}

#[test]
fn codec_load_empty_text_gives_default() {
    let c = Config::load_from_string("").expect("empty text is the default store");
    assert_eq!(c.providers.len(), 0);
    assert!(c.current_provider.is_none());
}

#[test]
fn codec_load_rejects_garbage() {
    let r = Config::load_from_string("not a config at all");
    assert!(matches!(r, Err(StoreError::FormatError)));
}

#[test]
fn codec_load_rejects_unterminated_value() {
    let r = Config::load_from_string("current_provider = \"acme");
    assert!(matches!(r, Err(StoreError::FormatError)));
}

#[test]
fn codec_load_rejects_missing_token_line() {
    let text = "[[providers]]\nname = \"a\"\napi_url = \"u\"\n";
    let r = Config::load_from_string(text);
    assert!(matches!(r, Err(StoreError::FormatError)));
}

#[test]
fn codec_load_rejects_trailing_garbage() {
    let text = "[[providers]]\nname = \"a\"\napi_url = \"u\"\ntoken = \"t\"\nleftover\n";
    let r = Config::load_from_string(text);
    assert!(matches!(r, Err(StoreError::FormatError)));
}

#[test]
fn codec_load_accepts_handwritten_document() {
    let text = "current_provider = \"b\"\n[[providers]]\nname = \"a\"\napi_url = \"https://a\"\ntoken = \"t1\"\n[[providers]]\nname = \"b\"\napi_url = \"https://b\"\ntoken = \"say \\\"hi\\\"\"\nmodel = \"mm\"\n";
    let c = Config::load_from_string(text).expect("well-formed document");
    assert_eq!(c.current_provider.as_deref(), Some("b"));
    assert_eq!(c.providers.len(), 2);
    assert_eq!(c.providers[1].token, "say \"hi\"");
    assert_eq!(c.providers[1].model.as_deref(), Some("mm"));
}

#[test]
fn codec_error_messages() {
    assert_eq!(StoreError::FormatError.message(), "Invalid config file format");
    assert_eq!(StoreError::IoError.message(), "Failed to access config file");
}
