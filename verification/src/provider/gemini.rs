//! The single-shot generation backend.

use crate::json::{
    decode, element, error_text, json_document, json_strings, lemma_strings_at_twice, member,
    string_in, strings_at, JsonStep,
};
use crate::provider::{
    header_views, is_success, status_is_success, unsent, AiProvider, ProviderError, ReplyHead,
    ReplyPlan,
};
use crate::text::{append, chars_of, string_of, trim, trimmed};
use vstd::prelude::*;

verus! {

/// Where the models of the backend are reached.
pub const GEMINI_API_URL: &'static str = "https://generativelanguage.googleapis.com/v1beta/models";

/// The model that is asked for.
pub const GEMINI_MODEL: &'static str = "gemini-flash-lite-latest";

/// The most tokens that an answer may have.
pub const MAX_OUTPUT_TOKENS: u32 = 500;

/// The sampling temperature, in tenths: 7 stands for 0.7.
pub const TEMPERATURE_TENTHS: u32 = 7;

/// The single-shot generation backend: a credential and the model that is asked for.
#[derive(Debug, Clone, PartialEq, Eq)]
pub struct GeminiProvider {
    api_key: String,
    model: String,
}

/// What the backend is sent: one part of content, and how to generate.
#[derive(Debug, Clone, PartialEq, Eq)]
pub struct GeminiRequest {
    /// The text of the one part of the one content.
    pub text: String,
    /// The sampling temperature, in tenths.
    pub temperature_tenths: u32,
    pub max_output_tokens: u32,
}

/// The way to the answer in the document that the backend replies with: the text of the
/// first part of the content of the first candidate.
pub open spec fn answer_path() -> Seq<JsonStep> {
    seq![
        JsonStep::Key("candidates"@),
        JsonStep::Index(0),
        JsonStep::Key("content"@),
        JsonStep::Key("parts"@),
        JsonStep::Index(0),
        JsonStep::Key("text"@),
    ]
}

/// The answer that a document with these strings holds: the string at the end of the way to
/// the answer, trimmed, where there is one.
pub open spec fn answer_in(strings: Map<Seq<JsonStep>, Seq<char>>) -> Option<Seq<char>> {
    if strings.dom().contains(answer_path()) {
        Some(trimmed(strings[answer_path()]))
    } else {
        None
    }
}

/// The answer that a decoded document holds, where it holds one.
pub fn candidate_text(document: &serde_json::Value) -> (out: Option<String>)
    ensures
        match out {
            Some(text) => answer_in(json_strings(*document)) == Some(text@),
            None => answer_in(json_strings(*document)) is None,
        },
{
    let candidates = member(document, "candidates");
    let first = element(candidates, 0);
    let content = member(first, "content");
    let parts = member(content, "parts");
    let part = element(parts, 0);
    let text = member(part, "text");
    proof {
        let all = json_strings(*document);
        let s1 = seq![JsonStep::Key("candidates"@)];
        let s2 = seq![JsonStep::Index(0)];
        let s3 = seq![JsonStep::Key("content"@)];
        let s4 = seq![JsonStep::Key("parts"@)];
        let s5 = seq![JsonStep::Index(0)];
        let s6 = seq![JsonStep::Key("text"@)];
        lemma_strings_at_twice(all, s1, s2);
        lemma_strings_at_twice(all, s1 + s2, s3);
        lemma_strings_at_twice(all, s1 + s2 + s3, s4);
        lemma_strings_at_twice(all, s1 + s2 + s3 + s4, s5);
        lemma_strings_at_twice(all, s1 + s2 + s3 + s4 + s5, s6);
        assert(s1 + s2 + s3 + s4 + s5 + s6 == answer_path());
        assert(json_strings(*text) == strings_at(all, answer_path()));
        assert(answer_path() + Seq::<JsonStep>::empty() == answer_path());
    }
    match string_in(text) {
        Some(found) => {
            let answer = trim(chars_of(found).as_slice());
            Some(string_of(answer.as_slice()))
        },
        None => None,
    }
}

impl GeminiProvider {
    /// The credential that requests are made with.
    pub closed spec fn key_text(&self) -> Seq<char> {
        self.api_key@
    }

    /// The single-shot backend with this credential, and with the model of its own.
    pub fn new(api_key: String) -> (provider: Self)
        ensures
            provider.key_text() == api_key@,
            provider.model_text() == GEMINI_MODEL@,
    {
        Self { api_key, model: string_of(chars_of(GEMINI_MODEL).as_slice()) }
    }

    /// The request for an answer to `prompt`: the prompt as one part, with the fixed
    /// temperature and limit of tokens.
    pub fn request(&self, prompt: &str) -> (request: GeminiRequest)
        ensures
            request.text@ == prompt@,
            request.temperature_tenths == 7,
            request.max_output_tokens == 500,
    {
        GeminiRequest {
            text: string_of(chars_of(prompt).as_slice()),
            temperature_tenths: TEMPERATURE_TENTHS,
            max_output_tokens: MAX_OUTPUT_TOKENS,
        }
    }

    /// The error of a reply whose status is no success: an error of the backend, whose
    /// message is the text of the body, and empty where the body could not be read.
    pub fn read_error(status: u16, body: Result<String, String>) -> (error: ProviderError)
        ensures
            error matches ProviderError::ApiError { status: code, message } && code == status
                && message@ == match body {
                Ok(text) => text@,
                Err(_) => Seq::empty(),
            },
    {
        let message = match body {
            Ok(text) => text,
            Err(_) => String::new(),
        };
        ProviderError::ApiError { status, message }
    }

    /// Finds the answer in a decoded reply: a document that holds none is a parse error.
    pub fn read_document(document: &serde_json::Value) -> (out: Result<String, ProviderError>)
        ensures
            match out {
                Ok(text) => answer_in(json_strings(*document)) == Some(text@),
                Err(error) => {
                    &&& answer_in(json_strings(*document)) is None
                    &&& error matches ProviderError::ParseError(reason)
                    &&& reason@ == "Failed to extract text from response"@
                },
            },
    {
        match candidate_text(document) {
            Some(text) => Ok(text),
            None => Err(
                ProviderError::ParseError(
                    string_of(chars_of("Failed to extract text from response").as_slice()),
                ),
            ),
        }
    }

    /// Reads the answer out of the body of a reply, or out of the reason why the body could
    /// not be read.
    ///
    /// A body that could not be read, or that is not the text of a JSON document, is a
    /// parse error. In a document the answer is looked for as [`answer_in`] says.
    pub fn read_reply(body: Result<Vec<u8>, String>) -> (out: Result<String, ProviderError>)
        ensures
            match body {
                Err(reason) => out == Err::<String, ProviderError>(
                    ProviderError::ParseError(reason),
                ),
                Ok(bytes) => match json_document(bytes@) {
                    None => out matches Err(ProviderError::ParseError(_)),
                    Some(strings) => match answer_in(strings) {
                        Some(answer) => out matches Ok(text) && text@ == answer,
                        None => {
                            &&& out matches Err(ProviderError::ParseError(reason))
                            &&& reason@ == "Failed to extract text from response"@
                        },
                    },
                },
            },
    {
        let bytes = match body {
            Err(reason) => {
                return Err(ProviderError::ParseError(reason));
            },
            Ok(bytes) => bytes,
        };
        match decode(bytes.as_slice()) {
            Err(error) => Err(ProviderError::ParseError(error_text(&error))),
            Ok(document) => Self::read_document(&document),
        }
    }
}

impl AiProvider for GeminiProvider {
    open spec fn name_text(&self) -> Seq<char> {
        "Gemini"@
    }

    closed spec fn model_text(&self) -> Seq<char> {
        self.model@
    }

    /// The place of the models, then the model, then what is asked of it.
    open spec fn url_text(&self) -> Seq<char> {
        GEMINI_API_URL@ + "/"@ + self.model_text() + ":generateContent"@
    }

    /// The credential, under the name that the backend knows it by.
    open spec fn header_texts(&self) -> Seq<(Seq<char>, Seq<char>)> {
        seq![("x-goog-api-key"@, self.key_text())]
    }

    /// Status 429 settles the reply: too many requests, with no word of how long to wait.
    /// Under any other status that is no success the body is the text of an error; under a
    /// success it holds the answer.
    open spec fn planned(&self, sent: Result<ReplyHead, String>) -> ReplyPlan {
        match sent {
            Err(reason) => unsent(reason),
            Ok(head) => if head.status == 429 {
                ReplyPlan::Reject(ProviderError::RateLimited { retry_after: None })
            } else if !is_success(head.status) {
                ReplyPlan::ReadError
            } else {
                ReplyPlan::ReadAnswer
            },
        }
    }

    fn name(&self) -> (name: &'static str) {
        "Gemini"
    }

    fn model(&self) -> (model: &str) {
        self.model.as_str()
    }

    fn url(&self) -> (url: String) {
        let mut url = chars_of(GEMINI_API_URL);
        append(&mut url, chars_of("/").as_slice());
        append(&mut url, chars_of(self.model.as_str()).as_slice());
        append(&mut url, chars_of(":generateContent").as_slice());
        string_of(url.as_slice())
    }

    fn headers(&self) -> (headers: Vec<(String, String)>) {
        let mut headers: Vec<(String, String)> = Vec::new();
        headers.push(
            (
                string_of(chars_of("x-goog-api-key").as_slice()),
                string_of(chars_of(self.api_key.as_str()).as_slice()),
            ),
        );
        assert(header_views(headers@) =~= self.header_texts());
        headers
    }

    fn plan(&self, sent: Result<ReplyHead, String>) -> (plan: ReplyPlan) {
        let head = match sent {
            Err(reason) => {
                return ReplyPlan::Reject(ProviderError::NetworkError(reason));
            },
            Ok(head) => head,
        };
        if head.status == 429 {
            ReplyPlan::Reject(ProviderError::RateLimited { retry_after: None })
        } else if !status_is_success(head.status) {
            ReplyPlan::ReadError
        } else {
            ReplyPlan::ReadAnswer
        }
    }
}

} // verus!
