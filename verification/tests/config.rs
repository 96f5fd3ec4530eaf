use commit_message::config::{Config, ConfigError, Environment, Provider};

fn environment() -> Environment {
    Environment {
        provider: None,
        model: None,
        emoji: None,
        max_diff_lines: None,
        min_length: None,
        max_retries: None,
        openrouter_api_key: Some("or-key".to_string()),
        google_api_key: None,
    }
}

fn some(value: &str) -> Option<String> {
    Some(value.to_string())
}

#[test]
fn an_environment_with_a_key_alone_gives_the_defaults() {
    let config = Config::from_env(&environment()).unwrap();
    assert_eq!(config.provider, Provider::OpenRouter);
    assert_eq!(config.provider, Provider::default());
    assert_eq!(config.model, "kwaipilot/kat-coder-pro:free");
    assert!(config.emoji_enabled);
    assert_eq!(config.max_diff_lines, 200);
    assert_eq!(config.min_message_length, 20);
    assert_eq!(config.max_retries, 3);
    assert_eq!(config.openrouter_api_key, some("or-key"));
    assert_eq!(config.google_api_key, None);
    assert!(config.has_key());
    assert_eq!(config.api_key(), "or-key");
}

#[test]
fn the_other_backend_has_its_own_model_and_key() {
    let mut env = environment();
    env.provider = some("gemini");
    assert_eq!(
        Config::from_env(&env).unwrap_err(),
        ConfigError::MissingApiKey("GOOGLE_API_KEY")
    );
    env.google_api_key = some("g-key");
    let config = Config::from_env(&env).unwrap();
    assert_eq!(config.provider, Provider::Gemini);
    assert_eq!(config.model, "gemini-flash-lite-latest");
    assert_eq!(config.api_key(), "g-key");
    env.model = some("my-model");
    assert_eq!(Config::from_env(&env).unwrap().model, "my-model");
}

#[test]
fn an_unknown_backend_and_a_missing_key_are_refused() {
    let mut env = environment();
    env.provider = some("Gemini");
    assert_eq!(
        Config::from_env(&env).unwrap_err(),
        ConfigError::InvalidProvider("Gemini".to_string())
    );
    env.provider = some("openrouter");
    env.openrouter_api_key = None;
    env.google_api_key = some("g-key");
    assert_eq!(
        Config::from_env(&env).unwrap_err(),
        ConfigError::MissingApiKey("OPENROUTER_API_KEY")
    );
    env.provider = some("");
    assert_eq!(
        Config::from_env(&env).unwrap_err(),
        ConfigError::InvalidProvider(String::new())
    );
}

#[test]
fn glyphs_are_switched_off_by_zero_and_false() {
    for (value, wanted) in [
        ("0", false),
        ("false", false),
        ("FALSE", false),
        ("False", false),
        ("1", true),
        ("no", true),
        ("", true),
        ("00", true),
        (" false", true),
    ] {
        let mut env = environment();
        env.emoji = some(value);
        assert_eq!(Config::from_env(&env).unwrap().emoji_enabled, wanted, "{:?}", value);
    }
}

#[test]
fn limits_are_read_where_they_are_numbers() {
    let mut env = environment();
    env.max_diff_lines = some("50");
    env.min_length = some("+5");
    let config = Config::from_env(&env).unwrap();
    assert_eq!(config.max_diff_lines, 50);
    assert_eq!(config.min_message_length, 5);
    env.max_diff_lines = some("many");
    env.min_length = some("-3");
    let config = Config::from_env(&env).unwrap();
    assert_eq!(config.max_diff_lines, 200);
    assert_eq!(config.min_message_length, 20);
    env.max_diff_lines = some("0");
    env.min_length = some("99999999999999999999999999");
    let config = Config::from_env(&env).unwrap();
    assert_eq!(config.max_diff_lines, 0);
    assert_eq!(config.min_message_length, 20);
}

#[test]
fn config_errors_say_what_to_set() {
    assert_eq!(
        ConfigError::MissingApiKey("OPENROUTER_API_KEY").to_string(),
        "Missing required environment variable: OPENROUTER_API_KEY"
    );
    assert_eq!(
        ConfigError::InvalidProvider("nope".to_string()).to_string(),
        "Invalid provider 'nope'. Use 'openrouter' or 'gemini'"
    );
}

#[test]
fn the_retry_budget_is_read_where_it_is_a_number() {
    for (value, budget) in [
        (None, 3),
        (Some("5"), 5),
        (Some("0"), 0),
        (Some("+1"), 1),
        (Some("007"), 7),
        (Some("4294967295"), 4294967295),
        (Some("4294967296"), 3),
        (Some(""), 3),
        (Some("many"), 3),
        (Some("-1"), 3),
        (Some(" 2"), 3),
    ] {
        let mut env = environment();
        env.max_retries = value.map(String::from);
        assert_eq!(Config::from_env(&env).unwrap().max_retries, budget, "{:?}", value);
    }
}

#[test]
fn settings_know_whether_they_hold_the_key_they_need() {
    let mut config = Config::from_env(&environment()).unwrap();
    assert!(config.has_key());
    config.provider = Provider::Gemini;
    assert!(!config.has_key());
    config.google_api_key = some("g-key");
    config.openrouter_api_key = None;
    assert!(config.has_key());
    config.provider = Provider::OpenRouter;
    assert!(!config.has_key());
}
