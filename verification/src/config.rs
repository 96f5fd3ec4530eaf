//! The settings of a run, and how they follow from the environment.

use crate::text::{
    append, chars_of, lowercased, number_in, parse_number, same_text, string_of, to_lowercase,
};
use vstd::prelude::*;

verus! {

/// The generation backends that can be chosen.
#[derive(Debug, Clone, Copy, PartialEq, Eq)]
pub enum Provider {
    OpenRouter,
    Gemini,
}

impl Default for Provider {
    fn default() -> (p: Self)
        ensures
            p == Provider::OpenRouter,
    {
        Provider::OpenRouter
    }
}

/// The settings of a run.
#[derive(Debug, Clone)]
pub struct Config {
    pub provider: Provider,
    pub model: String,
    pub emoji_enabled: bool,
    pub max_diff_lines: usize,
    pub min_message_length: usize,
    pub max_retries: u32,
    pub openrouter_api_key: Option<String>,
    pub google_api_key: Option<String>,
}

/// Why the environment gives no settings.
#[derive(Debug, Clone, PartialEq, Eq)]
pub enum ConfigError {
    MissingApiKey(&'static str),
    InvalidProvider(String),
}

/// The variables of the environment that the settings are read from, each with its value
/// where it is set.
#[derive(Debug, Clone)]
pub struct Environment {
    /// `CM_PROVIDER`
    pub provider: Option<String>,
    /// `CM_MODEL`
    pub model: Option<String>,
    /// `CM_EMOJI`
    pub emoji: Option<String>,
    /// `CM_MAX_DIFF_LINES`
    pub max_diff_lines: Option<String>,
    /// `CM_MIN_LENGTH`
    pub min_length: Option<String>,
    /// `CM_MAX_RETRIES`
    pub max_retries: Option<String>,
    /// `OPENROUTER_API_KEY`
    pub openrouter_api_key: Option<String>,
    /// `GOOGLE_API_KEY`
    pub google_api_key: Option<String>,
}

/// The view of an optional string.
pub open spec fn optional_string(o: Option<String>) -> Option<Seq<char>> {
    match o {
        Some(s) => Some(s@),
        None => None,
    }
}

/// The backend that a value of `CM_PROVIDER` names: `gemini` or `openrouter`, and the latter
/// also where the variable is not set. Any other value names none.
pub open spec fn provider_named(value: Option<Seq<char>>) -> Option<Provider> {
    match value {
        None => Some(Provider::OpenRouter),
        Some(name) => if name == "gemini"@ {
            Some(Provider::Gemini)
        } else if name == "openrouter"@ {
            Some(Provider::OpenRouter)
        } else {
            None
        },
    }
}

/// The model that a backend is asked for where `CM_MODEL` is not set.
pub open spec fn default_model(provider: Provider) -> Seq<char> {
    match provider {
        Provider::OpenRouter => "kwaipilot/kat-coder-pro:free"@,
        Provider::Gemini => "gemini-flash-lite-latest"@,
    }
}

/// The variable that holds the credential of a backend.
pub open spec fn key_variable(provider: Provider) -> Seq<char> {
    match provider {
        Provider::OpenRouter => "OPENROUTER_API_KEY"@,
        Provider::Gemini => "GOOGLE_API_KEY"@,
    }
}

/// Whether a value of `CM_EMOJI` asks for glyphs: every value does but `0` and the word
/// `false` in any letter case, and so does the variable that is not set.
pub open spec fn emoji_wanted(value: Option<Seq<char>>) -> bool {
    match value {
        None => true,
        Some(v) => v != "0"@ && lowercased(v) != "false"@,
    }
}

/// How many failed generation requests in a row a run puts up with, where the environment
/// does not say.
pub const DEFAULT_MAX_RETRIES: u32 = 3;

/// The limit that a variable sets: the number written in it, where that is at most `max`,
/// or `default` where the variable is not set or holds no such number.
pub open spec fn limit_from(value: Option<Seq<char>>, max: nat, default: nat) -> nat {
    match value {
        Some(v) => match number_in(v, max) {
            Some(n) => n,
            None => default,
        },
        None => default,
    }
}

/// The limit that a variable sets, or `default`.
fn read_limit(value: &Option<String>, max: u64, default: u64) -> (limit: u64)
    requires
        default <= max,
    ensures
        limit == limit_from(optional_string(*value), max as nat, default as nat),
        limit <= max,
{
    match value {
        Some(v) => {
            let chars = chars_of(v.as_str());
            match parse_number(chars.as_slice(), max) {
                Some(n) => n,
                None => default,
            }
        },
        None => default,
    }
}

/// Whether `value` holds exactly the characters of `word`.
fn is_word(value: &str, word: &str) -> (r: bool)
    ensures
        r == (value@ == word@),
{
    same_text(chars_of(value).as_slice(), chars_of(word).as_slice())
}

impl ConfigError {
    /// What the operator is told of this error.
    pub open spec fn text(self) -> Seq<char> {
        match self {
            ConfigError::MissingApiKey(key) => "Missing required environment variable: "@ + key@,
            ConfigError::InvalidProvider(p) => "Invalid provider '"@ + p@
                + "'. Use 'openrouter' or 'gemini'"@,
        }
    }

    /// What the operator is told of this error.
    pub fn to_string(&self) -> (out: String)
        ensures
            out@ == self.text(),
    {
        let mut out: Vec<char> = Vec::new();
        match self {
            ConfigError::MissingApiKey(key) => {
                append(&mut out, chars_of("Missing required environment variable: ").as_slice());
                append(&mut out, chars_of(key).as_slice());
            },
            ConfigError::InvalidProvider(p) => {
                append(&mut out, chars_of("Invalid provider '").as_slice());
                append(&mut out, chars_of(p.as_str()).as_slice());
                append(&mut out, chars_of("'. Use 'openrouter' or 'gemini'").as_slice());
            },
        }
        string_of(out.as_slice())
    }
}

impl Config {
    /// The credential of the chosen backend, where the settings hold one.
    pub open spec fn key(self) -> Option<String> {
        match self.provider {
            Provider::OpenRouter => self.openrouter_api_key,
            Provider::Gemini => self.google_api_key,
        }
    }

    /// The settings that the environment asks for.
    ///
    /// Fails for a backend that is not known, and for a chosen backend whose credential is
    /// not set. A limit that is not set, or not written as a number that fits, has its
    /// default: 200 lines of diff, 20 characters of message, 3 failed requests in a row.
    pub fn from_env(env: &Environment) -> (out: Result<Config, ConfigError>)
        ensures
            match out {
                Ok(config) => {
                    &&& provider_named(optional_string(env.provider)) == Some(config.provider)
                    &&& config.model@ == match env.model {
                        Some(model) => model@,
                        None => default_model(config.provider),
                    }
                    &&& config.emoji_enabled == emoji_wanted(optional_string(env.emoji))
                    &&& config.max_diff_lines == limit_from(
                        optional_string(env.max_diff_lines),
                        usize::MAX as nat,
                        200,
                    )
                    &&& config.min_message_length == limit_from(
                        optional_string(env.min_length),
                        usize::MAX as nat,
                        20,
                    )
                    &&& config.max_retries == limit_from(
                        optional_string(env.max_retries),
                        u32::MAX as nat,
                        DEFAULT_MAX_RETRIES as nat,
                    )
                    &&& optional_string(config.openrouter_api_key) == optional_string(
                        env.openrouter_api_key,
                    )
                    &&& optional_string(config.google_api_key) == optional_string(
                        env.google_api_key,
                    )
                    &&& config.key() is Some
                },
                Err(ConfigError::InvalidProvider(name)) => {
                    &&& provider_named(optional_string(env.provider)) is None
                    &&& optional_string(env.provider) == Some(name@)
                },
                Err(ConfigError::MissingApiKey(variable)) => {
                    &&& provider_named(optional_string(env.provider)) matches Some(provider)
                    &&& variable@ == key_variable(provider)
                    &&& match provider {
                        Provider::OpenRouter => env.openrouter_api_key is None,
                        Provider::Gemini => env.google_api_key is None,
                    }
                },
            },
    {
        let provider = match &env.provider {
            None => Provider::OpenRouter,
            Some(name) => {
                if is_word(name.as_str(), "gemini") {
                    Provider::Gemini
                } else if is_word(name.as_str(), "openrouter") {
                    Provider::OpenRouter
                } else {
                    return Err(ConfigError::InvalidProvider(name.clone()));
                }
            },
        };
        let model = match &env.model {
            Some(model) => model.clone(),
            None => match provider {
                Provider::OpenRouter => string_of(
                    chars_of("kwaipilot/kat-coder-pro:free").as_slice(),
                ),
                Provider::Gemini => string_of(chars_of("gemini-flash-lite-latest").as_slice()),
            },
        };
        let emoji_enabled = match &env.emoji {
            None => true,
            Some(v) => {
                let chars = chars_of(v.as_str());
                let lower = to_lowercase(chars.as_slice());
                !is_word(v.as_str(), "0") && !same_text(
                    lower.as_slice(),
                    chars_of("false").as_slice(),
                )
            },
        };
        let max_diff_lines = read_limit(&env.max_diff_lines, usize::MAX as u64, 200) as usize;
        let min_message_length = read_limit(&env.min_length, usize::MAX as u64, 20) as usize;
        let max_retries = read_limit(
            &env.max_retries,
            u32::MAX as u64,
            DEFAULT_MAX_RETRIES as u64,
        ) as u32;
        let openrouter_api_key = env.openrouter_api_key.clone();
        let google_api_key = env.google_api_key.clone();
        match provider {
            Provider::OpenRouter => {
                if openrouter_api_key.is_none() {
                    return Err(ConfigError::MissingApiKey("OPENROUTER_API_KEY"));
                }
            },
            Provider::Gemini => {
                if google_api_key.is_none() {
                    return Err(ConfigError::MissingApiKey("GOOGLE_API_KEY"));
                }
            },
        }
        Ok(
            Config {
                provider,
                model,
                emoji_enabled,
                max_diff_lines,
                min_message_length,
                max_retries,
                openrouter_api_key,
                google_api_key,
            },
        )
    }

    /// Whether the settings hold the credential of the backend that they choose.
    pub fn has_key(&self) -> (b: bool)
        ensures
            b == (self.key() is Some),
    {
        match self.provider {
            Provider::OpenRouter => self.openrouter_api_key.is_some(),
            Provider::Gemini => self.google_api_key.is_some(),
        }
    }

    /// The credential of the chosen backend.
    pub fn api_key(&self) -> (key: &str)
        requires
            self.key() is Some,
        ensures
            Some(key@) == optional_string(self.key()),
    {
        match self.provider {
            Provider::OpenRouter => self.openrouter_api_key.as_ref().unwrap().as_str(),
            Provider::Gemini => self.google_api_key.as_ref().unwrap().as_str(),
        }
    }
}

} // verus!
