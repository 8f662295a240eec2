//! The interactive set-up: what is asked, how an answer is read, and what
//! follows from it.

use crate::config::{parsed_url, result_text, url_parse, ConfigFile};
use crate::text::{trim, trimmed};
use vstd::prelude::*;
use vstd::string::StringExecFns;

verus! {

/// The base URL that is offered where none is typed.
pub const DEFAULT_ADAPTIVE_BASE_URL: &'static str = "https://app.adaptive.ml";

/// A question put to the user.
#[derive(Clone, Copy, Debug, PartialEq, Eq)]
pub struct InputPrompt {
    pub prompt: &'static str,
    pub default: Option<&'static str>,
    pub description: Option<&'static str>,
}

/// The question for the base URL.
pub open spec fn base_url_prompt() -> InputPrompt {
    InputPrompt {
        prompt: "Adaptive Base URL",
        default: Some(DEFAULT_ADAPTIVE_BASE_URL),
        description: Some("The base URL for your Adaptive instance"),
    }
}

/// The question for the API key.
pub open spec fn api_key_prompt() -> InputPrompt {
    InputPrompt {
        prompt: "API Key",
        default: None,
        description: Some("Your Adaptive API key (stored securely in OS keyring)"),
    }
}

/// The question for the default use case.
pub open spec fn use_case_prompt() -> InputPrompt {
    InputPrompt {
        prompt: "Default Use Case",
        default: None,
        description: Some(
            "Optional: Set a default use case to avoid specifying --usecase every time",
        ),
    }
}

/// What a typed line answers: the line without the whitespace around it,
/// or, where that is empty and the question has a default, the default.
pub open spec fn answer_text(line: Seq<char>, default: Option<Seq<char>>) -> Seq<char> {
    if trimmed(line).len() == 0 {
        match default {
            Some(text) => text,
            None => trimmed(line),
        }
    } else {
        trimmed(line)
    }
}

/// Reads the answer out of a typed line.
pub fn resolve_input(line: &str, default: Option<&str>) -> (answer: String)
    ensures
        answer@ == answer_text(
            line@,
            match default {
                Some(text) => Some(text@),
                None => None,
            },
        ),
{
    let inner: String = trim(line);
    if inner.as_str().is_empty() {
        match default {
            Some(text) => String::from_str(text),
            None => inner,
        }
    } else {
        inner
    }
}

/// How far the set-up has come.
#[derive(Debug, Clone, PartialEq, Eq)]
pub enum WizardStep {
    /// The base URL is asked for.
    BaseUrl,
    /// The API key is asked for.
    ApiKey { base_url: String },
    /// The default use case is asked for.
    UseCase { base_url: String, api_key: String },
    /// Everything was answered.
    Finished,
}

/// What the set-up asks of its caller.
#[derive(Debug, Clone, PartialEq, Eq)]
pub enum WizardOutput {
    /// Put this question and hand in the line that is typed.
    Ask(InputPrompt),
    /// Show this message: the last answer was not accepted.
    Reject { message: String },
    /// Keep the API key in the keyring and write the configuration file.
    Save { api_key: String, config: ConfigFile },
}

/// The set-up starts by asking for the base URL.
pub fn wizard_start() -> (r: (WizardStep, Vec<WizardOutput>))
    ensures
        r.0 is BaseUrl,
        r.1@ == seq![WizardOutput::Ask(base_url_prompt())],
{
    let mut outputs: Vec<WizardOutput> = Vec::new();
    outputs.push(
        WizardOutput::Ask(
            InputPrompt {
                prompt: "Adaptive Base URL",
                default: Some(DEFAULT_ADAPTIVE_BASE_URL),
                description: Some("The base URL for your Adaptive instance"),
            },
        ),
    );
    assert(outputs@ =~= seq![WizardOutput::Ask(base_url_prompt())]);
    (WizardStep::BaseUrl, outputs)
}

/// What follows the answer to the question for the base URL, given what
/// parsing the answer as a URL gave. A URL is kept, in its serialization,
/// and the API key is asked for. Anything else is rejected with the parse
/// error, and the base URL is asked for again.
pub fn after_base_url(parsed: Result<String, String>) -> (r: (WizardStep, Vec<WizardOutput>))
    ensures
        match parsed {
            Ok(url) => {
                &&& r.0 == WizardStep::ApiKey { base_url: url }
                &&& r.1@ == seq![WizardOutput::Ask(api_key_prompt())]
            },
            Err(detail) => {
                &&& r.0 is BaseUrl
                &&& r.1@.len() == 2
                &&& r.1@[0] matches WizardOutput::Reject { message }
                &&& message@ == "Invalid URL: "@ + detail@
                &&& r.1@[1] == WizardOutput::Ask(base_url_prompt())
            },
        },
{
    let mut outputs: Vec<WizardOutput> = Vec::new();
    match parsed {
        Ok(url) => {
            outputs.push(
                WizardOutput::Ask(
                    InputPrompt {
                        prompt: "API Key",
                        default: None,
                        description: Some("Your Adaptive API key (stored securely in OS keyring)"),
                    },
                ),
            );
            assert(outputs@ =~= seq![WizardOutput::Ask(api_key_prompt())]);
            (WizardStep::ApiKey { base_url: url }, outputs)
        },
        Err(detail) => {
            let mut message: String = String::from_str("Invalid URL: ");
            message.append(detail.as_str());
            outputs.push(WizardOutput::Reject { message });
            outputs.push(
                WizardOutput::Ask(
                    InputPrompt {
                        prompt: "Adaptive Base URL",
                        default: Some(DEFAULT_ADAPTIVE_BASE_URL),
                        description: Some("The base URL for your Adaptive instance"),
                    },
                ),
            );
            (WizardStep::BaseUrl, outputs)
        },
    }
}

/// What follows the answer to the question for the API key. An empty
/// answer is rejected and the key is asked for again; any other is kept and
/// the default use case is asked for.
pub fn after_api_key(base_url: String, answer: String) -> (r: (WizardStep, Vec<WizardOutput>))
    ensures
        answer@.len() == 0 ==> {
            &&& r.0 == WizardStep::ApiKey { base_url }
            &&& r.1@.len() == 2
            &&& r.1@[0] matches WizardOutput::Reject { message }
            &&& message@ == "API key cannot be empty"@
            &&& r.1@[1] == WizardOutput::Ask(api_key_prompt())
        },
        answer@.len() > 0 ==> {
            &&& r.0 == WizardStep::UseCase { base_url, api_key: answer }
            &&& r.1@ == seq![WizardOutput::Ask(use_case_prompt())]
        },
{
    let mut outputs: Vec<WizardOutput> = Vec::new();
    if answer.as_str().is_empty() {
        outputs.push(WizardOutput::Reject { message: String::from_str("API key cannot be empty") });
        outputs.push(
            WizardOutput::Ask(
                InputPrompt {
                    prompt: "API Key",
                    default: None,
                    description: Some("Your Adaptive API key (stored securely in OS keyring)"),
                },
            ),
        );
        (WizardStep::ApiKey { base_url }, outputs)
    } else {
        outputs.push(
            WizardOutput::Ask(
                InputPrompt {
                    prompt: "Default Use Case",
                    default: None,
                    description: Some(
                        "Optional: Set a default use case to avoid specifying --usecase every time",
                    ),
                },
            ),
        );
        assert(outputs@ =~= seq![WizardOutput::Ask(use_case_prompt())]);
        (WizardStep::UseCase { base_url, api_key: answer }, outputs)
    }
}

/// What follows the answer to the question for the default use case: the
/// set-up is finished, and the key and the configuration are to be saved.
/// An empty answer means no default use case.
pub fn after_use_case(base_url: String, api_key: String, answer: String) -> (r: (
    WizardStep,
    Vec<WizardOutput>,
))
    ensures
        r.0 is Finished,
        r.1@ == seq![
            WizardOutput::Save {
                api_key,
                config: ConfigFile {
                    default_use_case: if answer@.len() == 0 {
                        None
                    } else {
                        Some(answer)
                    },
                    adaptive_base_url: Some(base_url),
                },
            },
        ],
{
    let default_use_case: Option<String> = if answer.as_str().is_empty() {
        None
    } else {
        Some(answer)
    };
    let mut outputs: Vec<WizardOutput> = Vec::new();
    outputs.push(
        WizardOutput::Save {
            api_key,
            config: ConfigFile { default_use_case, adaptive_base_url: Some(base_url) },
        },
    );
    (WizardStep::Finished, outputs)
}

/// Takes the line typed in answer to the question of the step the set-up
/// is at, and says what follows.
///
/// The answer is read out of the line by [`answer_text`]; the base URL has
/// a default, the other two questions have none. What follows is what
/// [`after_base_url`], [`after_api_key`] and [`after_use_case`] say; for
/// the base URL, of what `url::Url::parse` makes of the answer. A finished
/// set-up stays finished and asks for nothing.
pub fn wizard_step(step: WizardStep, line: &str) -> (r: (WizardStep, Vec<WizardOutput>))
    ensures
        match step {
            WizardStep::BaseUrl => match parsed_url(
                answer_text(line@, Some(DEFAULT_ADAPTIVE_BASE_URL@)),
            ) {
                Ok(url) => {
                    &&& r.0 matches WizardStep::ApiKey { base_url }
                    &&& base_url@ == url
                    &&& r.1@ == seq![WizardOutput::Ask(api_key_prompt())]
                },
                Err(detail) => {
                    &&& r.0 is BaseUrl
                    &&& r.1@.len() == 2
                    &&& r.1@[0] matches WizardOutput::Reject { message }
                    &&& message@ == "Invalid URL: "@ + detail
                    &&& r.1@[1] == WizardOutput::Ask(base_url_prompt())
                },
            },
            WizardStep::ApiKey { base_url } => if answer_text(line@, None).len() == 0 {
                &&& r.0 == WizardStep::ApiKey { base_url }
                &&& r.1@.len() == 2
                &&& r.1@[0] matches WizardOutput::Reject { message }
                &&& message@ == "API key cannot be empty"@
                &&& r.1@[1] == WizardOutput::Ask(api_key_prompt())
            } else {
                &&& r.0 matches WizardStep::UseCase { base_url: kept, api_key }
                &&& kept == base_url
                &&& api_key@ == answer_text(line@, None)
                &&& r.1@ == seq![WizardOutput::Ask(use_case_prompt())]
            },
            WizardStep::UseCase { base_url, api_key } => {
                &&& r.0 is Finished
                &&& r.1@.len() == 1
                &&& r.1@[0] matches WizardOutput::Save { api_key: saved_key, config }
                &&& saved_key == api_key
                &&& config.adaptive_base_url == Some(base_url)
                &&& answer_text(line@, None).len() == 0 ==> config.default_use_case is None
                &&& answer_text(line@, None).len() > 0 ==> (config.default_use_case matches Some(
                    use_case,
                ) && use_case@ == answer_text(line@, None))
            },
            WizardStep::Finished => r.0 is Finished && r.1@.len() == 0,
        },
{
    match step {
        WizardStep::BaseUrl => {
            let answer: String = resolve_input(line, Some(DEFAULT_ADAPTIVE_BASE_URL));
            let parsed = url_parse(answer.as_str());
            proof {
                assert(result_text(parsed) == parsed_url(answer@));
            }
            after_base_url(parsed)
        },
        WizardStep::ApiKey { base_url } => {
            let answer: String = resolve_input(line, None);
            after_api_key(base_url, answer)
        },
        WizardStep::UseCase { base_url, api_key } => {
            let answer: String = resolve_input(line, None);
            after_use_case(base_url, api_key, answer)
        },
        WizardStep::Finished => (WizardStep::Finished, Vec::new()),
    }
}

} // verus!
