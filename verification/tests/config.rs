use voice_sdr::config::Config;

fn some(text: &str) -> Option<String> {
    Some(text.to_string())
}

#[test]
fn empty_environment_gives_the_defaults() {
    let config = Config::from_env(None, None, None, None, None);
    assert_eq!(config.port, 3000);
    assert_eq!(config.base_url, "http://localhost:3000");
    assert!(config.mock_voice);
    assert_eq!(config.openai_api_key, None);
    assert_eq!(config.openai_model, "gpt-4o-mini");
    assert_eq!(config.listen_addr(), "0.0.0.0:3000");
}

#[test]
fn environment_overrides_the_defaults() {
    let config = Config::from_env(
        some("8080"),
        some("https://sdr.example"),
        some("false"),
        some("sk-live"),
        some("gpt-4o"),
    );
    assert_eq!(config.port, 8080);
    assert_eq!(config.base_url, "https://sdr.example");
    assert!(!config.mock_voice);
    assert_eq!(config.openai_api_key.as_deref(), Some("sk-live"));
    assert_eq!(config.openai_model, "gpt-4o");
    assert_eq!(config.listen_addr(), "0.0.0.0:8080");
}

#[test]
fn base_url_follows_the_port() {
    let config = Config::from_env(some("65535"), None, None, None, None);
    assert_eq!(config.port, 65535);
    assert_eq!(config.base_url, "http://localhost:65535");
}

#[test]
fn port_is_parsed_as_rust_parses_it() {
    for (text, port) in [
        ("0", 0u16),
        ("+81", 81),
        ("007", 7),
        ("00000000065535", 65535),
        ("65536", 3000),
        ("", 3000),
        ("+", 3000),
        ("-1", 3000),
        ("++1", 3000),
        (" 80", 3000),
        ("80 ", 3000),
        ("8_0", 3000),
        ("eighty", 3000),
        ("٨٠", 3000),
        ("1e3", 3000),
    ] {
        let config = Config::from_env(some(text), None, None, None, None);
        assert_eq!(config.port, port, "{:?}", text);
        assert_eq!(config.port, text.parse::<u16>().unwrap_or(3000), "{:?}", text);
    }
}

#[test]
fn mock_voice_is_on_for_true_and_one_only() {
    for (text, mock) in [
        ("true", true),
        ("1", true),
        ("false", false),
        ("0", false),
        ("TRUE", false),
        ("yes", false),
        ("", false),
        (" true", false),
    ] {
        let config = Config::from_env(None, None, some(text), None, None);
        assert_eq!(config.mock_voice, mock, "{:?}", text);
    }
}

#[test]
fn blank_key_counts_as_missing() {
    for text in ["", " ", "\t\n", "\u{a0}\u{2003}"] {
        let config = Config::from_env(None, None, None, some(text), None);
        assert_eq!(config.openai_api_key, None, "{:?}", text);
    }
    let config = Config::from_env(None, None, None, some(" sk "), None);
    assert_eq!(config.openai_api_key.as_deref(), Some(" sk "));
}
