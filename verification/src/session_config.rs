//! The session configuration options a client may set: the primary agent,
//! the thought level, the provider and the model. A request is read first
//! (which option, which value); the catalog answers for that value then
//! decide the new settings, and whether they changed, which is when the
//! client is told.

use vstd::prelude::*;

use crate::text::{eq_ignore_ascii_case, eq_ignore_ascii_case_spec, str_eq, trim, trimmed};
use crate::tool_args::{lowercase, unicode_lowercase};

verus! {

/// The id of the primary agent option.
pub const PRIMARY_AGENT_ID: &'static str = "primary_agent";

/// The id of the thought level option.
pub const THOUGHT_LEVEL_ID: &'static str = "thought_level";

/// The id of the provider option.
pub const PROVIDER_ID: &'static str = "provider";

/// The id of the model option.
pub const MODEL_ID: &'static str = "model";

/// A session configuration option.
#[derive(Clone, Copy, Debug, PartialEq, Eq, Structural)]
pub enum ConfigOption {
    PrimaryAgent,
    ThoughtLevel,
    Provider,
    Model,
}

/// Why a request to set an option is refused.
#[derive(Clone, Copy, Debug, PartialEq, Eq, Structural)]
pub enum ConfigOptionError {
    /// The session is not known.
    UnknownSession,
    /// The value is not a string.
    ExpectedStringValue,
    /// No option has this id.
    UnknownConfigOption,
    /// The catalog has no such primary agent.
    UnknownPrimaryAgent,
    /// The session's model has no thought levels.
    UnsupportedConfigOption,
    /// No thought level has this name.
    UnknownThoughtLevel,
    /// The provider is empty or not offered.
    UnknownProvider,
    /// The provider does not support the session's model and has no default.
    ProviderHasNoDefaultModel,
    /// The model is empty.
    UnknownModel,
    /// The session's provider does not support the model.
    ModelNotSupportedForProvider,
}

/// Which option a request sets, and the value as the catalogs are asked
/// about it: the provider trimmed and lower-cased, the model trimmed, other
/// values as given.
#[derive(Debug)]
pub struct ConfigRequest {
    pub option: ConfigOption,
    pub value: String,
}

/// The option an id names.
pub open spec fn option_for_id(config_id: Seq<char>) -> Option<ConfigOption> {
    if config_id == PRIMARY_AGENT_ID@ {
        Some(ConfigOption::PrimaryAgent)
    } else if config_id == THOUGHT_LEVEL_ID@ {
        Some(ConfigOption::ThoughtLevel)
    } else if config_id == PROVIDER_ID@ {
        Some(ConfigOption::Provider)
    } else if config_id == MODEL_ID@ {
        Some(ConfigOption::Model)
    } else {
        None
    }
}

/// The value the catalogs are asked about, for `option` set to `value`.
pub open spec fn normalized_value(option: ConfigOption, value: Seq<char>) -> Seq<char> {
    match option {
        ConfigOption::Provider => unicode_lowercase(trimmed(value)),
        ConfigOption::Model => trimmed(value),
        _ => value,
    }
}

/// How a request is read: the session must be known, the value a string,
/// the id an option's; a provider or model that is empty once normalized is
/// refused at once.
pub open spec fn config_request_spec(session_known: bool, config_id: Seq<char>, value: Option<Seq<char>>) -> Result<
    (ConfigOption, Seq<char>),
    ConfigOptionError,
> {
    if !session_known {
        Err(ConfigOptionError::UnknownSession)
    } else {
        match value {
            None => Err(ConfigOptionError::ExpectedStringValue),
            Some(v) => match option_for_id(config_id) {
                None => Err(ConfigOptionError::UnknownConfigOption),
                Some(option) => {
                    let normalized = normalized_value(option, v);
                    if option == ConfigOption::Provider && normalized.len() == 0 {
                        Err(ConfigOptionError::UnknownProvider)
                    } else if option == ConfigOption::Model && normalized.len() == 0 {
                        Err(ConfigOptionError::UnknownModel)
                    } else {
                        Ok((option, normalized))
                    }
                },
            },
        }
    }
}

/// The option an id names, if any.
pub fn config_option_for_id(config_id: &str) -> (r: Option<ConfigOption>)
    ensures
        r == option_for_id(config_id@),
{
    if str_eq(config_id, PRIMARY_AGENT_ID) {
        Some(ConfigOption::PrimaryAgent)
    } else if str_eq(config_id, THOUGHT_LEVEL_ID) {
        Some(ConfigOption::ThoughtLevel)
    } else if str_eq(config_id, PROVIDER_ID) {
        Some(ConfigOption::Provider)
    } else if str_eq(config_id, MODEL_ID) {
        Some(ConfigOption::Model)
    } else {
        None
    }
}

/// Reads a request to set option `config_id` to `value` (`None` when the
/// value is not a string) in a session that is known when `session_known`.
pub fn config_option_request(session_known: bool, config_id: &str, value: Option<&str>) -> (r: Result<
    ConfigRequest,
    ConfigOptionError,
>)
    ensures
        match config_request_spec(
            session_known,
            config_id@,
            match value {
                Some(v) => Some(v@),
                None => None,
            },
        ) {
            Ok((option, v)) => r matches Ok(req) && req.option == option && req.value@ == v,
            Err(e) => r == Err::<ConfigRequest, ConfigOptionError>(e),
        },
{
    if !session_known {
        return Err(ConfigOptionError::UnknownSession);
    }
    let value = match value {
        Some(v) => v,
        None => {
            return Err(ConfigOptionError::ExpectedStringValue);
        },
    };
    let option = match config_option_for_id(config_id) {
        Some(o) => o,
        None => {
            return Err(ConfigOptionError::UnknownConfigOption);
        },
    };
    match option {
        ConfigOption::Provider => {
            let provider = lowercase(trim(value));
            if provider.unicode_len() == 0 {
                Err(ConfigOptionError::UnknownProvider)
            } else {
                Ok(ConfigRequest { option, value: provider })
            }
        },
        ConfigOption::Model => {
            let model = trim(value);
            if model.unicode_len() == 0 {
                Err(ConfigOptionError::UnknownModel)
            } else {
                Ok(ConfigRequest { option, value: String::from_str(model) })
            }
        },
        _ => Ok(ConfigRequest { option, value: String::from_str(value) }),
    }
}

/// The configurable settings of a session. The thought level is held by its
/// canonical name.
#[derive(Debug)]
pub struct SessionSettings {
    pub primary_agent: String,
    pub reasoning_effort: String,
    pub provider: String,
    pub model: String,
}

/// The mathematical content of [`SessionSettings`].
pub struct SettingsView {
    pub primary_agent: Seq<char>,
    pub reasoning_effort: Seq<char>,
    pub provider: Seq<char>,
    pub model: Seq<char>,
}

impl View for SessionSettings {
    type V = SettingsView;

    open spec fn view(&self) -> SettingsView {
        SettingsView {
            primary_agent: self.primary_agent@,
            reasoning_effort: self.reasoning_effort@,
            provider: self.provider@,
            model: self.model@,
        }
    }
}

/// What the catalogs answer about a request's value, for the session's
/// current provider and model. Only the answers for the request's option
/// are read.
#[derive(Debug)]
pub struct CatalogAnswers {
    /// The primary agent the value resolves to, if any.
    pub primary_agent: Option<String>,
    /// Whether the session's model has thought levels.
    pub thought_level_supported: bool,
    /// The canonical name of the thought level the value names, if any.
    pub thought_level: Option<String>,
    /// Whether the provider is one the client may choose.
    pub provider_offered: bool,
    /// Whether the provider (for a provider request) or the session's
    /// provider (for a model request) supports the model.
    pub model_supported: bool,
    /// The provider's default model, if it has one.
    pub default_model: Option<String>,
}

/// The mathematical content of [`CatalogAnswers`].
pub struct AnswersView {
    pub primary_agent: Option<Seq<char>>,
    pub thought_level_supported: bool,
    pub thought_level: Option<Seq<char>>,
    pub provider_offered: bool,
    pub model_supported: bool,
    pub default_model: Option<Seq<char>>,
}

pub open spec fn opt_view(o: Option<String>) -> Option<Seq<char>> {
    match o {
        Some(s) => Some(s@),
        None => None,
    }
}

impl View for CatalogAnswers {
    type V = AnswersView;

    open spec fn view(&self) -> AnswersView {
        AnswersView {
            primary_agent: opt_view(self.primary_agent),
            thought_level_supported: self.thought_level_supported,
            thought_level: opt_view(self.thought_level),
            provider_offered: self.provider_offered,
            model_supported: self.model_supported,
            default_model: opt_view(self.default_model),
        }
    }
}

/// The settings after `option` is set to `value` (already normalized) with
/// the catalog answers `a`, or why the request is refused. A primary agent
/// that matches the current one up to ASCII case leaves the settings as
/// they are; a provider keeps the session's model when it supports it and
/// takes its default model otherwise.
pub open spec fn config_change_spec(
    current: SettingsView,
    option: ConfigOption,
    value: Seq<char>,
    a: AnswersView,
) -> Result<SettingsView, ConfigOptionError> {
    match option {
        ConfigOption::PrimaryAgent => match a.primary_agent {
            None => Err(ConfigOptionError::UnknownPrimaryAgent),
            Some(agent) => if eq_ignore_ascii_case_spec(current.primary_agent, agent) {
                Ok(current)
            } else {
                Ok(SettingsView { primary_agent: agent, ..current })
            },
        },
        ConfigOption::ThoughtLevel => if !a.thought_level_supported {
            Err(ConfigOptionError::UnsupportedConfigOption)
        } else {
            match a.thought_level {
                None => Err(ConfigOptionError::UnknownThoughtLevel),
                Some(level) => Ok(SettingsView { reasoning_effort: level, ..current }),
            }
        },
        ConfigOption::Provider => if !a.provider_offered {
            Err(ConfigOptionError::UnknownProvider)
        } else if a.model_supported {
            Ok(SettingsView { provider: value, ..current })
        } else {
            match a.default_model {
                None => Err(ConfigOptionError::ProviderHasNoDefaultModel),
                Some(model) => Ok(SettingsView { provider: value, model, ..current }),
            }
        },
        ConfigOption::Model => if !a.model_supported {
            Err(ConfigOptionError::ModelNotSupportedForProvider)
        } else {
            Ok(SettingsView { model: value, ..current })
        },
    }
}

/// Whether two settings differ.
pub open spec fn settings_differ(a: SettingsView, b: SettingsView) -> bool {
    a.primary_agent != b.primary_agent || a.reasoning_effort != b.reasoning_effort || a.provider
        != b.provider || a.model != b.model
}

/// A request that succeeds sets exactly the option it names to the value it
/// asks for: a model request sets the model to the requested model, a
/// thought-level request the level the catalog named, a provider request
/// the requested provider (with the session's model when the provider
/// supports it, the provider's default otherwise), a primary-agent request
/// an agent that matches the resolved one up to ASCII case; every other
/// setting is kept.
pub proof fn law_success_sets_the_requested_option(
    current: SettingsView,
    option: ConfigOption,
    value: Seq<char>,
    a: AnswersView,
)
    requires
        config_change_spec(current, option, value, a) is Ok,
    ensures
        ({
            let next = config_change_spec(current, option, value, a)->Ok_0;
            match option {
                ConfigOption::Model => next.model == value && next.provider == current.provider
                    && next.primary_agent == current.primary_agent && next.reasoning_effort
                    == current.reasoning_effort,
                ConfigOption::ThoughtLevel => a.thought_level == Some(next.reasoning_effort)
                    && next.model == current.model && next.provider == current.provider
                    && next.primary_agent == current.primary_agent,
                ConfigOption::Provider => next.provider == value && next.model == (if a.model_supported {
                    current.model
                } else {
                    a.default_model->0
                }) && next.primary_agent == current.primary_agent && next.reasoning_effort
                    == current.reasoning_effort,
                ConfigOption::PrimaryAgent => a.primary_agent matches Some(agent)
                    && eq_ignore_ascii_case_spec(next.primary_agent, agent) && next.model == current.model
                    && next.provider == current.provider && next.reasoning_effort == current.reasoning_effort,
            }
        }),
{
    if option == ConfigOption::PrimaryAgent {
        let agent = a.primary_agent->0;
        let next = config_change_spec(current, option, value, a)->Ok_0;
        if !eq_ignore_ascii_case_spec(current.primary_agent, agent) {
            assert(next.primary_agent == agent);
            assert(eq_ignore_ascii_case_spec(agent, agent));
        }
    }
}

/// The client is told of a change exactly when a setting differs: a model
/// request for a model other than the session's always changes it.
pub proof fn law_new_model_is_reported(current: SettingsView, value: Seq<char>, a: AnswersView)
    requires
        config_change_spec(current, ConfigOption::Model, value, a) is Ok,
        value != current.model,
    ensures
        settings_differ(current, config_change_spec(current, ConfigOption::Model, value, a)->Ok_0),
{
    law_success_sets_the_requested_option(current, ConfigOption::Model, value, a);
}

/// Repeating a request that succeeded, with the same catalog answers,
/// leaves the settings as they are: the session is unchanged and the client
/// is not told again.
pub proof fn law_repeated_request_changes_nothing(
    current: SettingsView,
    option: ConfigOption,
    value: Seq<char>,
    a: AnswersView,
)
    requires
        config_change_spec(current, option, value, a) is Ok,
    ensures
        ({
            let next = config_change_spec(current, option, value, a)->Ok_0;
            &&& config_change_spec(next, option, value, a) == Ok::<SettingsView, ConfigOptionError>(next)
            &&& !settings_differ(next, next)
        }),
{
    let next = config_change_spec(current, option, value, a)->Ok_0;
    if option == ConfigOption::PrimaryAgent {
        let agent = a.primary_agent->0;
        assert(eq_ignore_ascii_case_spec(agent, agent));
        if eq_ignore_ascii_case_spec(current.primary_agent, agent) {
            assert(next == current);
        } else {
            assert(next.primary_agent == agent);
        }
    }
}

fn copy_settings(s: &SessionSettings) -> (r: SessionSettings)
    ensures
        r@ == s@,
{
    SessionSettings {
        primary_agent: s.primary_agent.clone(),
        reasoning_effort: s.reasoning_effort.clone(),
        provider: s.provider.clone(),
        model: s.model.clone(),
    }
}

/// Sets `request`'s option in `current` with the catalog answers `answers`:
/// the new settings and whether they differ from `current` (the client is
/// told of the new options only then), or why the request is refused.
pub fn config_option_change(
    current: &SessionSettings,
    request: &ConfigRequest,
    answers: &CatalogAnswers,
) -> (r: Result<(SessionSettings, bool), ConfigOptionError>)
    ensures
        match config_change_spec(current@, request.option, request.value@, answers@) {
            Ok(next) => r matches Ok((s, changed)) && s@ == next && changed == settings_differ(
                current@,
                next,
            ),
            Err(e) => r == Err::<(SessionSettings, bool), ConfigOptionError>(e),
        },
        r matches Ok((s, changed)) ==> {
            &&& request.option == ConfigOption::Model ==> s.model@ == request.value@
            &&& request.option == ConfigOption::Provider ==> s.provider@ == request.value@
            &&& changed == (s@ != current@)
        },
{
    let mut next = copy_settings(current);
    match request.option {
        ConfigOption::PrimaryAgent => match &answers.primary_agent {
            None => {
                return Err(ConfigOptionError::UnknownPrimaryAgent);
            },
            Some(agent) => {
                if !eq_ignore_ascii_case(current.primary_agent.as_str(), agent.as_str()) {
                    next.primary_agent = agent.clone();
                }
            },
        },
        ConfigOption::ThoughtLevel => {
            if !answers.thought_level_supported {
                return Err(ConfigOptionError::UnsupportedConfigOption);
            }
            match &answers.thought_level {
                None => {
                    return Err(ConfigOptionError::UnknownThoughtLevel);
                },
                Some(level) => {
                    next.reasoning_effort = level.clone();
                },
            }
        },
        ConfigOption::Provider => {
            if !answers.provider_offered {
                return Err(ConfigOptionError::UnknownProvider);
            }
            if !answers.model_supported {
                match &answers.default_model {
                    None => {
                        return Err(ConfigOptionError::ProviderHasNoDefaultModel);
                    },
                    Some(model) => {
                        next.model = model.clone();
                    },
                }
            }
            next.provider = request.value.clone();
        },
        ConfigOption::Model => {
            if !answers.model_supported {
                return Err(ConfigOptionError::ModelNotSupportedForProvider);
            }
            next.model = request.value.clone();
        },
    }
    let changed = !str_eq(next.primary_agent.as_str(), current.primary_agent.as_str()) || !str_eq(
        next.reasoning_effort.as_str(),
        current.reasoning_effort.as_str(),
    ) || !str_eq(next.provider.as_str(), current.provider.as_str()) || !str_eq(
        next.model.as_str(),
        current.model.as_str(),
    );
    Ok((next, changed))
}

} // verus!
