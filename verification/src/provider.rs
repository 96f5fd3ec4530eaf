//! The generation backends: what they are asked, and how their answers are read.

pub mod gemini;
pub mod openrouter;

use crate::config::{optional_string, Config, Provider};
use crate::provider::gemini::{GeminiProvider, GEMINI_MODEL};
use crate::provider::openrouter::OpenRouterProvider;
use crate::text::{append, chars_of, decimal, string_of, to_decimal};
use vstd::prelude::*;

verus! {

/// Why a generation request gave no text.
#[derive(Debug, Clone, PartialEq, Eq)]
pub enum ProviderError {
    /// The request did not get through, or no answer came back.
    NetworkError(String),
    /// The backend answered with an error of its own.
    ApiError { status: u16, message: String },
    /// The answer did not have the expected shape.
    ParseError(String),
    /// The backend asks for fewer requests, perhaps with a number of seconds to wait.
    RateLimited { retry_after: Option<u64> },
}

pub type ProviderResult<T> = Result<T, ProviderError>;

impl ProviderError {
    /// What the operator is told of this error.
    pub open spec fn text(self) -> Seq<char> {
        match self {
            ProviderError::NetworkError(msg) => "Network error: "@ + msg@,
            ProviderError::ApiError { status, message } => "API error ("@ + decimal(status as nat)
                + "): "@ + message@,
            ProviderError::ParseError(msg) => "Failed to parse response: "@ + msg@,
            ProviderError::RateLimited { retry_after: Some(secs) } => "Rate limited. Retry after "@
                + decimal(secs as nat) + " seconds"@,
            ProviderError::RateLimited { retry_after: None } => "Rate limited. Please try again later"@,
        }
    }

    /// What the operator is told of this error.
    pub fn to_string(&self) -> (out: String)
        ensures
            out@ == self.text(),
    {
        let mut out: Vec<char> = Vec::new();
        match self {
            ProviderError::NetworkError(msg) => {
                append(&mut out, chars_of("Network error: ").as_slice());
                append(&mut out, chars_of(msg.as_str()).as_slice());
            },
            ProviderError::ApiError { status, message } => {
                append(&mut out, chars_of("API error (").as_slice());
                append(&mut out, to_decimal(*status as u64).as_slice());
                append(&mut out, chars_of("): ").as_slice());
                append(&mut out, chars_of(message.as_str()).as_slice());
            },
            ProviderError::ParseError(msg) => {
                append(&mut out, chars_of("Failed to parse response: ").as_slice());
                append(&mut out, chars_of(msg.as_str()).as_slice());
            },
            ProviderError::RateLimited { retry_after: Some(secs) } => {
                append(&mut out, chars_of("Rate limited. Retry after ").as_slice());
                append(&mut out, to_decimal(*secs).as_slice());
                append(&mut out, chars_of(" seconds").as_slice());
            },
            ProviderError::RateLimited { retry_after: None } => {
                append(&mut out, chars_of("Rate limited. Please try again later").as_slice());
            },
        }
        string_of(out.as_slice())
    }
}

/// What is to be done with the body of a reply, by its status.
#[derive(Debug, Clone, PartialEq, Eq)]
pub enum ReplyPlan {
    /// The status settles the reply with this error; the body is not read.
    Reject(ProviderError),
    /// The body is to be read as text; it says what went wrong.
    ReadError,
    /// The body is to be read as the document that holds the answer.
    ReadAnswer,
}

/// Whether a status says that the request went well: the statuses from 200 to 299 do.
pub open spec fn is_success(status: u16) -> bool {
    200 <= status < 300
}

/// Whether a status says that the request went well.
pub fn status_is_success(status: u16) -> (r: bool)
    ensures
        r == is_success(status),
{
    200 <= status && status < 300
}

/// The views of the headers of a request.
pub open spec fn header_views(headers: Seq<(String, String)>) -> Seq<(Seq<char>, Seq<char>)> {
    Seq::new(headers.len(), |i: int| (headers[i].0@, headers[i].1@))
}

/// The head of a reply: its status, and its `Retry-After` header where it has one that is
/// text.
#[derive(Debug, Clone, PartialEq, Eq)]
pub struct ReplyHead {
    pub status: u16,
    pub retry_after: Option<String>,
}

/// What follows a request that did not get through, for the reason that the transport
/// gives: a network error, whatever the backend.
pub open spec fn unsent(reason: String) -> ReplyPlan {
    ReplyPlan::Reject(ProviderError::NetworkError(reason))
}

/// A generation backend, as far as a request is put together and its reply is judged
/// without leaving the program. Sending the request, and reading the body of the reply as
/// [`AiProvider::plan`] says, is the caller's part. No backend asks twice: a request that
/// fails is asked again by the run, if at all.
pub trait AiProvider {
    /// The name of the backend.
    spec fn name_text(&self) -> Seq<char>;

    /// The model that the backend is asked for.
    spec fn model_text(&self) -> Seq<char>;

    /// Where the request is sent.
    spec fn url_text(&self) -> Seq<char>;

    /// The headers of the request, each a name and a value.
    spec fn header_texts(&self) -> Seq<(Seq<char>, Seq<char>)>;

    /// What follows the sending of a request: for a request that did not get through, the
    /// network error; for a reply, what is to be done with its body.
    spec fn planned(&self, sent: Result<ReplyHead, String>) -> ReplyPlan;

    /// The name of the backend, for the operator.
    fn name(&self) -> (name: &'static str)
        ensures
            name@ == self.name_text(),
    ;

    /// The model that the backend is asked for.
    fn model(&self) -> (model: &str)
        ensures
            model@ == self.model_text(),
    ;

    /// Where the request is sent.
    fn url(&self) -> (url: String)
        ensures
            url@ == self.url_text(),
    ;

    /// The headers of the request, the credential among them.
    fn headers(&self) -> (headers: Vec<(String, String)>)
        ensures
            header_views(headers@) == self.header_texts(),
    ;

    /// Judges what came of sending a request: the head of the reply, or the reason why the
    /// request did not get through.
    fn plan(&self, sent: Result<ReplyHead, String>) -> (plan: ReplyPlan)
        ensures
            plan == self.planned(sent),
    ;
}

/// One of the two backends.
#[derive(Debug, Clone, PartialEq, Eq)]
pub enum Backend {
    OpenRouter(OpenRouterProvider),
    Gemini(GeminiProvider),
}

impl AiProvider for Backend {
    open spec fn name_text(&self) -> Seq<char> {
        match self {
            Backend::OpenRouter(provider) => provider.name_text(),
            Backend::Gemini(provider) => provider.name_text(),
        }
    }

    open spec fn model_text(&self) -> Seq<char> {
        match self {
            Backend::OpenRouter(provider) => provider.model_text(),
            Backend::Gemini(provider) => provider.model_text(),
        }
    }

    open spec fn url_text(&self) -> Seq<char> {
        match self {
            Backend::OpenRouter(provider) => provider.url_text(),
            Backend::Gemini(provider) => provider.url_text(),
        }
    }

    open spec fn header_texts(&self) -> Seq<(Seq<char>, Seq<char>)> {
        match self {
            Backend::OpenRouter(provider) => provider.header_texts(),
            Backend::Gemini(provider) => provider.header_texts(),
        }
    }

    open spec fn planned(&self, sent: Result<ReplyHead, String>) -> ReplyPlan {
        match self {
            Backend::OpenRouter(provider) => provider.planned(sent),
            Backend::Gemini(provider) => provider.planned(sent),
        }
    }

    fn name(&self) -> (name: &'static str) {
        match self {
            Backend::OpenRouter(provider) => provider.name(),
            Backend::Gemini(provider) => provider.name(),
        }
    }

    fn model(&self) -> (model: &str) {
        match self {
            Backend::OpenRouter(provider) => provider.model(),
            Backend::Gemini(provider) => provider.model(),
        }
    }

    fn url(&self) -> (url: String) {
        match self {
            Backend::OpenRouter(provider) => provider.url(),
            Backend::Gemini(provider) => provider.url(),
        }
    }

    fn headers(&self) -> (headers: Vec<(String, String)>) {
        match self {
            Backend::OpenRouter(provider) => provider.headers(),
            Backend::Gemini(provider) => provider.headers(),
        }
    }

    fn plan(&self, sent: Result<ReplyHead, String>) -> (plan: ReplyPlan) {
        match self {
            Backend::OpenRouter(provider) => provider.plan(sent),
            Backend::Gemini(provider) => provider.plan(sent),
        }
    }
}

/// The backend that the settings choose, with its credential: the chat-completion backend
/// with the model of the settings, or the single-shot backend with the model of its own.
pub fn create_provider(config: &Config) -> (provider: Backend)
    requires
        config.key() is Some,
    ensures
        match config.provider {
            Provider::OpenRouter => {
                &&& provider matches Backend::OpenRouter(backend)
                &&& Some(backend.key_text()) == optional_string(config.openrouter_api_key)
                &&& backend.model_text() == config.model@
            },
            Provider::Gemini => {
                &&& provider matches Backend::Gemini(backend)
                &&& Some(backend.key_text()) == optional_string(config.google_api_key)
                &&& backend.model_text() == GEMINI_MODEL@
            },
        },
{
    match config.provider {
        Provider::OpenRouter => Backend::OpenRouter(
            OpenRouterProvider::new(
                config.openrouter_api_key.clone().unwrap(),
                config.model.clone(),
            ),
        ),
        Provider::Gemini => Backend::Gemini(
            GeminiProvider::new(config.google_api_key.clone().unwrap()),
        ),
    }
}

} // verus!
