use vtcode_acp::handshake::configured_api_key_applies;
use vtcode_acp::handshake::{advertised_agent_capabilities, build_auth_methods, env_api_keys, env_base_urls, AuthMethodKind};

#[test]
fn advertised_capabilities_include_session_discovery_and_resume() {
    let capabilities = advertised_agent_capabilities();

    assert!(capabilities.load_session);
    assert!(capabilities.session_list);
    assert!(capabilities.session_resume);
}

#[test]
fn auth_methods_offer_oauth_terminal_and_environment() {
    let methods = build_auth_methods();
    let ids: Vec<_> = methods.iter().map(|m| m.id).collect();
    assert_eq!(ids, ["oauth-openai", "oauth-openrouter", "terminal-login", "env-api-keys", "env-base-urls"]);
    match &methods[2].kind {
        AuthMethodKind::Terminal(args) => assert_eq!(args, &vec!["login"]),
        other => panic!("unexpected {other:?}"),
    }
    match &methods[3].kind {
        AuthMethodKind::EnvVar(vars) => assert_eq!(vars.len(), 19),
        other => panic!("unexpected {other:?}"),
    }
    assert_eq!(methods[3].name, "API Key");
    assert!(methods[4].description.is_none());
}

#[test]
fn environment_variables_are_listed_with_labels() {
    let keys = env_api_keys();
    assert_eq!(keys[0].name, "OPENAI_API_KEY");
    assert_eq!(keys[13].name, "HF_TOKEN");
    assert!(keys[15].optional);
    assert_eq!(keys.iter().filter(|k| k.optional).count(), 3);
    let urls = env_base_urls();
    assert_eq!(urls.len(), 13);
    assert!(urls.iter().all(|u| u.optional));
    assert_eq!(urls[10].label, "Hugging Face");
}

#[test]
fn configured_key_serves_only_its_provider() {
    assert!(configured_api_key_applies("OpenAI", "openai", "sk-1"));
    assert!(!configured_api_key_applies("anthropic", "openai", "sk-1"));
    assert!(!configured_api_key_applies("openai", "openai", ""));
}
