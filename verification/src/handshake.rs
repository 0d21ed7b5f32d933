//! What the agent announces when a client connects: its session
//! capabilities and the ways a client can authenticate.

use vstd::prelude::*;

use crate::text::{eq_ignore_ascii_case, eq_ignore_ascii_case_spec};

verus! {

/// The session capabilities the agent advertises.
#[derive(Clone, Copy, Debug, PartialEq, Eq, Structural)]
pub struct AdvertisedCapabilities {
    /// Sessions can be loaded again.
    pub load_session: bool,
    /// Sessions can be listed.
    pub session_list: bool,
    /// Sessions can be resumed.
    pub session_resume: bool,
}

/// The agent can load, list and resume sessions.
pub fn advertised_agent_capabilities() -> (c: AdvertisedCapabilities)
    ensures
        c.load_session && c.session_list && c.session_resume,
{
    AdvertisedCapabilities { load_session: true, session_list: true, session_resume: true }
}

/// An environment variable a client can set to authenticate.
#[derive(Clone, Copy, Debug)]
pub struct AuthEnvVar {
    pub name: &'static str,
    pub label: &'static str,
    pub optional: bool,
}

/// The API key variables, in order.
pub open spec fn api_key_vars() -> Seq<AuthEnvVar> {
    seq![
        AuthEnvVar { name: "OPENAI_API_KEY", label: "OpenAI", optional: false },
        AuthEnvVar { name: "ANTHROPIC_API_KEY", label: "Anthropic", optional: false },
        AuthEnvVar { name: "GEMINI_API_KEY", label: "Google Gemini", optional: false },
        AuthEnvVar { name: "OPENROUTER_API_KEY", label: "OpenRouter", optional: false },
        AuthEnvVar { name: "DEEPSEEK_API_KEY", label: "DeepSeek", optional: false },
        AuthEnvVar { name: "META_API_KEY", label: "Meta AI", optional: false },
        AuthEnvVar { name: "MODEL_API_KEY", label: "Meta AI (documented)", optional: false },
        AuthEnvVar { name: "ZAI_API_KEY", label: "Z.AI", optional: false },
        AuthEnvVar { name: "MOONSHOT_API_KEY", label: "Moonshot", optional: false },
        AuthEnvVar { name: "MINIMAX_API_KEY", label: "MiniMax", optional: false },
        AuthEnvVar { name: "GROQ_API_KEY", label: "Groq", optional: false },
        AuthEnvVar { name: "XAI_API_KEY", label: "xAI", optional: false },
        AuthEnvVar { name: "COHERE_API_KEY", label: "Cohere", optional: false },
        AuthEnvVar { name: "HF_TOKEN", label: "Hugging Face", optional: false },
        AuthEnvVar { name: "MISTRAL_API_KEY", label: "Mistral", optional: false },
        AuthEnvVar { name: "GOOGLE_API_KEY", label: "Google (alt)", optional: true },
        AuthEnvVar { name: "OLLAMA_API_KEY", label: "Ollama", optional: true },
        AuthEnvVar { name: "OLLAMA_API_KEY", label: "Ollama Cloud", optional: false },
        AuthEnvVar { name: "LMSTUDIO_API_KEY", label: "LM Studio", optional: true },
    ]
}

/// The base URL variables, in order; every one is optional.
pub open spec fn base_url_vars() -> Seq<AuthEnvVar> {
    seq![
        AuthEnvVar { name: "OPENAI_BASE_URL", label: "OpenAI", optional: true },
        AuthEnvVar { name: "ANTHROPIC_BASE_URL", label: "Anthropic", optional: true },
        AuthEnvVar { name: "GEMINI_BASE_URL", label: "Gemini", optional: true },
        AuthEnvVar { name: "OPENROUTER_BASE_URL", label: "OpenRouter", optional: true },
        AuthEnvVar { name: "DEEPSEEK_BASE_URL", label: "DeepSeek", optional: true },
        AuthEnvVar { name: "META_BASE_URL", label: "Meta AI", optional: true },
        AuthEnvVar { name: "ZAI_BASE_URL", label: "Z.AI", optional: true },
        AuthEnvVar { name: "MOONSHOT_BASE_URL", label: "Moonshot", optional: true },
        AuthEnvVar { name: "MINIMAX_BASE_URL", label: "MiniMax", optional: true },
        AuthEnvVar { name: "XAI_BASE_URL", label: "xAI", optional: true },
        AuthEnvVar { name: "HUGGINGFACE_BASE_URL", label: "Hugging Face", optional: true },
        AuthEnvVar { name: "OLLAMA_BASE_URL", label: "Ollama", optional: true },
        AuthEnvVar { name: "LMSTUDIO_BASE_URL", label: "LM Studio", optional: true },
    ]
}

/// The API key variables a client can set.
pub fn env_api_keys() -> (v: Vec<AuthEnvVar>)
    ensures
        v@ == api_key_vars(),
{
    let v = vec![
        AuthEnvVar { name: "OPENAI_API_KEY", label: "OpenAI", optional: false },
        AuthEnvVar { name: "ANTHROPIC_API_KEY", label: "Anthropic", optional: false },
        AuthEnvVar { name: "GEMINI_API_KEY", label: "Google Gemini", optional: false },
        AuthEnvVar { name: "OPENROUTER_API_KEY", label: "OpenRouter", optional: false },
        AuthEnvVar { name: "DEEPSEEK_API_KEY", label: "DeepSeek", optional: false },
        AuthEnvVar { name: "META_API_KEY", label: "Meta AI", optional: false },
        AuthEnvVar { name: "MODEL_API_KEY", label: "Meta AI (documented)", optional: false },
        AuthEnvVar { name: "ZAI_API_KEY", label: "Z.AI", optional: false },
        AuthEnvVar { name: "MOONSHOT_API_KEY", label: "Moonshot", optional: false },
        AuthEnvVar { name: "MINIMAX_API_KEY", label: "MiniMax", optional: false },
        AuthEnvVar { name: "GROQ_API_KEY", label: "Groq", optional: false },
        AuthEnvVar { name: "XAI_API_KEY", label: "xAI", optional: false },
        AuthEnvVar { name: "COHERE_API_KEY", label: "Cohere", optional: false },
        AuthEnvVar { name: "HF_TOKEN", label: "Hugging Face", optional: false },
        AuthEnvVar { name: "MISTRAL_API_KEY", label: "Mistral", optional: false },
        AuthEnvVar { name: "GOOGLE_API_KEY", label: "Google (alt)", optional: true },
        AuthEnvVar { name: "OLLAMA_API_KEY", label: "Ollama", optional: true },
        AuthEnvVar { name: "OLLAMA_API_KEY", label: "Ollama Cloud", optional: false },
        AuthEnvVar { name: "LMSTUDIO_API_KEY", label: "LM Studio", optional: true },
    ];
    assert(v@ =~= api_key_vars());
    v
}

/// The base URL variables a client can set.
pub fn env_base_urls() -> (v: Vec<AuthEnvVar>)
    ensures
        v@ == base_url_vars(),
        forall|i: int| 0 <= i < v@.len() ==> (#[trigger] v@[i]).optional,
{
    let v = vec![
        AuthEnvVar { name: "OPENAI_BASE_URL", label: "OpenAI", optional: true },
        AuthEnvVar { name: "ANTHROPIC_BASE_URL", label: "Anthropic", optional: true },
        AuthEnvVar { name: "GEMINI_BASE_URL", label: "Gemini", optional: true },
        AuthEnvVar { name: "OPENROUTER_BASE_URL", label: "OpenRouter", optional: true },
        AuthEnvVar { name: "DEEPSEEK_BASE_URL", label: "DeepSeek", optional: true },
        AuthEnvVar { name: "META_BASE_URL", label: "Meta AI", optional: true },
        AuthEnvVar { name: "ZAI_BASE_URL", label: "Z.AI", optional: true },
        AuthEnvVar { name: "MOONSHOT_BASE_URL", label: "Moonshot", optional: true },
        AuthEnvVar { name: "MINIMAX_BASE_URL", label: "MiniMax", optional: true },
        AuthEnvVar { name: "XAI_BASE_URL", label: "xAI", optional: true },
        AuthEnvVar { name: "HUGGINGFACE_BASE_URL", label: "Hugging Face", optional: true },
        AuthEnvVar { name: "OLLAMA_BASE_URL", label: "Ollama", optional: true },
        AuthEnvVar { name: "LMSTUDIO_BASE_URL", label: "LM Studio", optional: true },
    ];
    assert(v@ =~= base_url_vars());
    v
}

/// How a client authenticates with one method.
#[derive(Debug)]
pub enum AuthMethodKind {
    /// The agent runs the flow itself.
    Agent,
    /// A command run in a terminal, with its arguments.
    Terminal(Vec<&'static str>),
    /// Environment variables the client sets.
    EnvVar(Vec<AuthEnvVar>),
}

/// One way to authenticate.
#[derive(Debug)]
pub struct AuthMethod {
    pub id: &'static str,
    pub name: &'static str,
    pub description: Option<&'static str>,
    pub kind: AuthMethodKind,
}

/// The ids, names and descriptions of the authentication methods, in order.
pub open spec fn auth_method_heads() -> Seq<(&'static str, &'static str, Option<&'static str>)> {
    seq![
        ("oauth-openai", "OpenAI OAuth", Some("Authenticate with OpenAI via OAuth 2.0 with PKCE")),
        (
            "oauth-openrouter",
            "OpenRouter OAuth",
            Some("Authenticate with OpenRouter via OAuth 2.0 with PKCE"),
        ),
        (
            "terminal-login",
            "Terminal Login",
            Some("Interactive terminal-based authentication via vtcode login command"),
        ),
        ("env-api-keys", "API Key", None),
        ("env-base-urls", "API Base URL", None),
    ]
}

/// The authentication methods: two OAuth flows the agent runs, a terminal
/// login with `vtcode login`, and the API key and base URL variables.
pub fn build_auth_methods() -> (v: Vec<AuthMethod>)
    ensures
        v@.len() == 5,
        forall|i: int|
            0 <= i < 5 ==> ((#[trigger] v@[i]).id, v@[i].name, v@[i].description)
                == auth_method_heads()[i],
        v@[0].kind is Agent,
        v@[1].kind is Agent,
        v@[2].kind matches AuthMethodKind::Terminal(args) && args@ == seq!["login"],
        v@[3].kind matches AuthMethodKind::EnvVar(vars) && vars@ == api_key_vars(),
        v@[4].kind matches AuthMethodKind::EnvVar(vars) && vars@ == base_url_vars(),
{
    let mut methods: Vec<AuthMethod> = Vec::new();
    methods.push(
        AuthMethod {
            id: "oauth-openai",
            name: "OpenAI OAuth",
            description: Some("Authenticate with OpenAI via OAuth 2.0 with PKCE"),
            kind: AuthMethodKind::Agent,
        },
    );
    methods.push(
        AuthMethod {
            id: "oauth-openrouter",
            name: "OpenRouter OAuth",
            description: Some("Authenticate with OpenRouter via OAuth 2.0 with PKCE"),
            kind: AuthMethodKind::Agent,
        },
    );
    methods.push(
        AuthMethod {
            id: "terminal-login",
            name: "Terminal Login",
            description: Some("Interactive terminal-based authentication via vtcode login command"),
            kind: AuthMethodKind::Terminal(vec!["login"]),
        },
    );
    methods.push(
        AuthMethod {
            id: "env-api-keys",
            name: "API Key",
            description: None,
            kind: AuthMethodKind::EnvVar(env_api_keys()),
        },
    );
    methods.push(
        AuthMethod {
            id: "env-base-urls",
            name: "API Base URL",
            description: None,
            kind: AuthMethodKind::EnvVar(env_base_urls()),
        },
    );
    proof {
        assert forall|i: int| 0 <= i < 5 implies ((#[trigger] methods@[i]).id, methods@[i].name, methods@[i].description)
            == auth_method_heads()[i] by {}
    }
    methods
}

/// Whether the key configured for the agent's own provider serves a request
/// to `provider`: the names agree up to ASCII case and a key is configured.
/// Otherwise the key is looked up in the credential store.
pub fn configured_api_key_applies(provider: &str, configured_provider: &str, configured_key: &str) -> (r:
    bool)
    ensures
        r == (eq_ignore_ascii_case_spec(provider@, configured_provider@) && configured_key@.len() > 0),
{
    eq_ignore_ascii_case(provider, configured_provider) && configured_key.unicode_len() > 0
}

} // verus!
