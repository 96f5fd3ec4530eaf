//! The chat-completion backend.

use crate::config::optional_string;
use crate::provider::{header_views, unsent, AiProvider, ProviderError, ReplyHead, ReplyPlan};
use crate::text::{append, chars_of, number_in, parse_number, string_of, trim, trimmed};
use vstd::prelude::*;

verus! {

/// Where chat completions are asked for.
pub const OPENROUTER_API_URL: &'static str = "https://openrouter.ai/api/v1/chat/completions";

/// The most tokens that an answer may have.
pub const MAX_TOKENS: u32 = 500;

/// The sampling temperature, in tenths: 7 stands for 0.7.
pub const TEMPERATURE_TENTHS: u32 = 7;

/// The chat-completion backend: a credential and the model that is asked for.
#[derive(Debug, Clone, PartialEq, Eq)]
pub struct OpenRouterProvider {
    api_key: String,
    model: String,
}

/// One message of a chat.
#[derive(Debug, Clone, PartialEq, Eq)]
pub struct Message {
    pub role: String,
    pub content: String,
}

/// What the backend is sent.
#[derive(Debug, Clone, PartialEq, Eq)]
pub struct OpenRouterRequest {
    pub model: String,
    pub messages: Vec<Message>,
    pub max_tokens: u32,
    /// The sampling temperature, in tenths.
    pub temperature_tenths: u32,
}

/// The message of one choice of an answer.
#[derive(Debug, Clone, PartialEq, Eq)]
pub struct ResponseMessage {
    pub content: String,
}

/// One choice of an answer.
#[derive(Debug, Clone, PartialEq, Eq)]
pub struct Choice {
    pub message: ResponseMessage,
}

/// The error that an answer carries in place of choices.
#[derive(Debug, Clone, PartialEq, Eq)]
pub struct ApiErrorResponse {
    pub message: String,
}

/// What the backend answers with, decoded.
#[derive(Debug, Clone, PartialEq, Eq)]
pub struct OpenRouterResponse {
    pub choices: Option<Vec<Choice>>,
    pub error: Option<ApiErrorResponse>,
}

/// The seconds to wait that a `Retry-After` header asks for: the number written in it, or
/// none where the header is missing or holds anything else.
pub open spec fn retry_after_seconds(header: Option<Seq<char>>) -> Option<u64> {
    match header {
        Some(value) => match number_in(value, u64::MAX as nat) {
            Some(n) => Some(n as u64),
            None => None,
        },
        None => None,
    }
}

impl OpenRouterProvider {
    /// The credential that requests are made with.
    pub closed spec fn key_text(&self) -> Seq<char> {
        self.api_key@
    }

    /// The chat-completion backend with this credential and this model.
    pub fn new(api_key: String, model: String) -> (provider: Self)
        ensures
            provider.key_text() == api_key@,
            provider.model_text() == model@,
    {
        Self { api_key, model }
    }

    /// The request for an answer to `prompt`: one message of the user, with the fixed
    /// temperature and limit of tokens.
    pub fn request(&self, prompt: &str) -> (request: OpenRouterRequest)
        ensures
            request.model@ == self.model_text(),
            request.messages@.len() == 1,
            request.messages@[0].role@ == "user"@,
            request.messages@[0].content@ == prompt@,
            request.max_tokens == 500,
            request.temperature_tenths == 7,
    {
        let mut messages: Vec<Message> = Vec::new();
        messages.push(
            Message {
                role: string_of(chars_of("user").as_slice()),
                content: string_of(chars_of(prompt).as_slice()),
            },
        );
        OpenRouterRequest {
            model: self.model.clone(),
            messages,
            max_tokens: MAX_TOKENS,
            temperature_tenths: TEMPERATURE_TENTHS,
        }
    }

    /// Reads the answer out of a decoded body, or out of the reason why the body could not
    /// be decoded.
    ///
    /// A body that was not decoded is a parse error with that reason. An error in the body
    /// is an error of the backend, with the status of the reply. Otherwise the answer is the
    /// content of the first choice, trimmed; a body without choices is a parse error.
    pub fn read_reply(status: u16, reply: Result<OpenRouterResponse, String>) -> (out: Result<
        String,
        ProviderError,
    >)
        ensures
            match reply {
                Err(reason) => out == Err::<String, ProviderError>(
                    ProviderError::ParseError(reason),
                ),
                Ok(body) => match body.error {
                    Some(error) => out == Err::<String, ProviderError>(
                        ProviderError::ApiError { status, message: error.message },
                    ),
                    None => if body.choices is Some && body.choices->0@.len() > 0 {
                        &&& out matches Ok(answer)
                        &&& answer@ == trimmed(body.choices->0@[0].message.content@)
                    } else {
                        &&& out matches Err(ProviderError::ParseError(reason))
                        &&& reason@ == "No choices in response"@
                    },
                },
            },
    {
        let body = match reply {
            Err(reason) => {
                return Err(ProviderError::ParseError(reason));
            },
            Ok(body) => body,
        };
        if let Some(error) = body.error {
            return Err(ProviderError::ApiError { status, message: error.message });
        }
        if let Some(choices) = &body.choices {
            if choices.len() > 0 {
                let content = chars_of(choices[0].message.content.as_str());
                let answer = trim(content.as_slice());
                return Ok(string_of(answer.as_slice()));
            }
        }
        Err(ProviderError::ParseError(string_of(chars_of("No choices in response").as_slice())))
    }
}

impl AiProvider for OpenRouterProvider {
    open spec fn name_text(&self) -> Seq<char> {
        "OpenRouter"@
    }

    closed spec fn model_text(&self) -> Seq<char> {
        self.model@
    }

    open spec fn url_text(&self) -> Seq<char> {
        OPENROUTER_API_URL@
    }

    /// The credential as a bearer token, and the two headers that name this program.
    open spec fn header_texts(&self) -> Seq<(Seq<char>, Seq<char>)> {
        seq![
            ("Authorization"@, "Bearer "@ + self.key_text()),
            ("HTTP-Referer"@, "https://github.com/CodingInCarhartts/commit-message"@),
            ("X-Title"@, "Commit Message Generator"@),
        ]
    }

    /// Status 429 settles the reply: too many requests, with the seconds to wait that the
    /// `Retry-After` header gives. Under every other status the body holds the answer, or
    /// the error.
    open spec fn planned(&self, sent: Result<ReplyHead, String>) -> ReplyPlan {
        match sent {
            Err(reason) => unsent(reason),
            Ok(head) => if head.status == 429 {
                ReplyPlan::Reject(
                    ProviderError::RateLimited {
                        retry_after: retry_after_seconds(optional_string(head.retry_after)),
                    },
                )
            } else {
                ReplyPlan::ReadAnswer
            },
        }
    }

    fn name(&self) -> (name: &'static str) {
        "OpenRouter"
    }

    fn model(&self) -> (model: &str) {
        self.model.as_str()
    }

    fn url(&self) -> (url: String) {
        string_of(chars_of(OPENROUTER_API_URL).as_slice())
    }

    fn headers(&self) -> (headers: Vec<(String, String)>) {
        let mut bearer = chars_of("Bearer ");
        append(&mut bearer, chars_of(self.api_key.as_str()).as_slice());
        let mut headers: Vec<(String, String)> = Vec::new();
        headers.push(
            (string_of(chars_of("Authorization").as_slice()), string_of(bearer.as_slice())),
        );
        headers.push(
            (
                string_of(chars_of("HTTP-Referer").as_slice()),
                string_of(
                    chars_of("https://github.com/CodingInCarhartts/commit-message").as_slice(),
                ),
            ),
        );
        headers.push(
            (
                string_of(chars_of("X-Title").as_slice()),
                string_of(chars_of("Commit Message Generator").as_slice()),
            ),
        );
        assert(header_views(headers@) =~= self.header_texts());
        headers
    }

    fn plan(&self, sent: Result<ReplyHead, String>) -> (plan: ReplyPlan) {
        let head = match sent {
            Err(reason) => {
                return ReplyPlan::Reject(ProviderError::NetworkError(reason));
            },
            Ok(head) => head,
        };
        if head.status == 429 {
            let seconds = match &head.retry_after {
                Some(value) => parse_number(chars_of(value.as_str()).as_slice(), u64::MAX),
                None => None,
            };
            ReplyPlan::Reject(ProviderError::RateLimited { retry_after: seconds })
        } else {
            ReplyPlan::ReadAnswer
        }
    }
}

} // verus!
