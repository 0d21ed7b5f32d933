use vtcode_acp::session_config::{
    config_option_change, config_option_for_id, config_option_request, CatalogAnswers, ConfigOption,
    ConfigOptionError, SessionSettings,
};

fn settings() -> SessionSettings {
    SessionSettings {
        primary_agent: "coder".to_string(),
        reasoning_effort: "medium".to_string(),
        provider: "openai".to_string(),
        model: "gpt-5".to_string(),
    }
}

fn no_answers() -> CatalogAnswers {
    CatalogAnswers {
        primary_agent: None,
        thought_level_supported: false,
        thought_level: None,
        provider_offered: false,
        model_supported: false,
        default_model: None,
    }
}

#[test]
fn requests_are_read_in_order() {
    assert_eq!(config_option_request(false, "model", Some("x")).err(), Some(ConfigOptionError::UnknownSession));
    assert_eq!(config_option_request(true, "model", None).err(), Some(ConfigOptionError::ExpectedStringValue));
    assert_eq!(config_option_request(true, "colour", Some("x")).err(), Some(ConfigOptionError::UnknownConfigOption));
    assert_eq!(config_option_request(true, "provider", Some("  \t")).err(), Some(ConfigOptionError::UnknownProvider));
    assert_eq!(config_option_request(true, "model", Some("   ")).err(), Some(ConfigOptionError::UnknownModel));
    assert_eq!(config_option_for_id("primary_agent"), Some(ConfigOption::PrimaryAgent));
    assert_eq!(config_option_for_id("thought_level"), Some(ConfigOption::ThoughtLevel));
    assert_eq!(config_option_for_id("Model"), None);
}

#[test]
fn provider_is_trimmed_and_lower_cased_and_model_trimmed() {
    let provider = config_option_request(true, "provider", Some("  Anthropic ")).unwrap();
    assert_eq!(provider.option, ConfigOption::Provider);
    assert_eq!(provider.value, "anthropic");
    let model = config_option_request(true, "model", Some(" gpt-5-mini ")).unwrap();
    assert_eq!(model.value, "gpt-5-mini");
    let agent = config_option_request(true, "primary_agent", Some(" Build ")).unwrap();
    assert_eq!(agent.value, " Build ");
}

#[test]
fn provider_keeps_a_supported_model_and_falls_back_to_its_default() {
    let request = config_option_request(true, "provider", Some("Anthropic")).unwrap();
    let mut answers = no_answers();
    assert_eq!(config_option_change(&settings(), &request, &answers).err(), Some(ConfigOptionError::UnknownProvider));
    answers.provider_offered = true;
    assert_eq!(
        config_option_change(&settings(), &request, &answers).err(),
        Some(ConfigOptionError::ProviderHasNoDefaultModel)
    );
    answers.default_model = Some("sonnet-large".to_string());
    let (next, changed) = config_option_change(&settings(), &request, &answers).unwrap();
    assert_eq!((next.provider.as_str(), next.model.as_str()), ("anthropic", "sonnet-large"));
    assert!(changed);
    answers.model_supported = true;
    let (next, _) = config_option_change(&settings(), &request, &answers).unwrap();
    assert_eq!(next.model, "gpt-5");
}

#[test]
fn the_client_is_told_only_when_something_changed() {
    let request = config_option_request(true, "model", Some("gpt-5")).unwrap();
    let mut answers = no_answers();
    assert_eq!(
        config_option_change(&settings(), &request, &answers).err(),
        Some(ConfigOptionError::ModelNotSupportedForProvider)
    );
    answers.model_supported = true;
    let (next, changed) = config_option_change(&settings(), &request, &answers).unwrap();
    assert_eq!(next.model, "gpt-5");
    assert!(!changed);
    let agent = config_option_request(true, "primary_agent", Some("CODER")).unwrap();
    answers.primary_agent = Some("CODER".to_string());
    let (next, changed) = config_option_change(&settings(), &agent, &answers).unwrap();
    assert_eq!(next.primary_agent, "coder");
    assert!(!changed);
    answers.primary_agent = None;
    assert_eq!(config_option_change(&settings(), &agent, &answers).err(), Some(ConfigOptionError::UnknownPrimaryAgent));
}

#[test]
fn thought_levels_need_a_model_that_has_them() {
    let request = config_option_request(true, "thought_level", Some("high")).unwrap();
    let mut answers = no_answers();
    assert_eq!(
        config_option_change(&settings(), &request, &answers).err(),
        Some(ConfigOptionError::UnsupportedConfigOption)
    );
    answers.thought_level_supported = true;
    assert_eq!(
        config_option_change(&settings(), &request, &answers).err(),
        Some(ConfigOptionError::UnknownThoughtLevel)
    );
    answers.thought_level = Some("high".to_string());
    let (next, changed) = config_option_change(&settings(), &request, &answers).unwrap();
    assert_eq!(next.reasoning_effort, "high");
    assert!(changed);
}
