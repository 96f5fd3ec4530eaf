use commit_message::config::{Config, Provider};
use commit_message::provider::gemini::{candidate_text, GeminiProvider, GeminiRequest};
use commit_message::provider::openrouter::{
    ApiErrorResponse, Choice, OpenRouterProvider, OpenRouterResponse, ResponseMessage,
};
use commit_message::provider::{
    create_provider, AiProvider, Backend, ProviderError, ReplyHead, ReplyPlan,
};

fn reply(contents: &[&str]) -> OpenRouterResponse {
    OpenRouterResponse {
        choices: Some(
            contents
                .iter()
                .map(|c| Choice { message: ResponseMessage { content: c.to_string() } })
                .collect(),
        ),
        error: None,
    }
}

fn head(status: u16, retry_after: Option<&str>) -> Result<ReplyHead, String> {
    Ok(ReplyHead { status, retry_after: retry_after.map(String::from) })
}

fn pair(name: &str, value: &str) -> (String, String) {
    (name.to_string(), value.to_string())
}

fn document(text: &str) -> Result<Vec<u8>, String> {
    Ok(text.as_bytes().to_vec())
}

const GEMINI_REPLY: &str = r#"{
  "candidates": [
    {"content": {"parts": [{"text": "  SUBJECT: feat: x\nBODY: none \n"}, {"text": "second part"}], "role": "model"}},
    {"content": {"parts": [{"text": "second candidate"}]}}
  ],
  "usageMetadata": {"totalTokenCount": 12}
}"#;

#[test]
fn provider_errors_say_what_went_wrong() {
    assert_eq!(
        ProviderError::NetworkError("timed out".to_string()).to_string(),
        "Network error: timed out"
    );
    assert_eq!(
        ProviderError::ApiError { status: 401, message: "bad key".to_string() }.to_string(),
        "API error (401): bad key"
    );
    assert_eq!(
        ProviderError::ParseError("no text".to_string()).to_string(),
        "Failed to parse response: no text"
    );
    assert_eq!(
        ProviderError::RateLimited { retry_after: Some(30) }.to_string(),
        "Rate limited. Retry after 30 seconds"
    );
    assert_eq!(
        ProviderError::RateLimited { retry_after: None }.to_string(),
        "Rate limited. Please try again later"
    );
}

#[test]
fn the_chat_backend_asks_with_one_user_message() {
    let provider = OpenRouterProvider::new("secret".to_string(), "some/model".to_string());
    assert_eq!(provider.name(), "OpenRouter");
    assert_eq!(provider.model(), "some/model");
    assert_eq!(provider.url(), "https://openrouter.ai/api/v1/chat/completions");
    assert_eq!(
        provider.headers(),
        vec![
            pair("Authorization", "Bearer secret"),
            pair("HTTP-Referer", "https://github.com/CodingInCarhartts/commit-message"),
            pair("X-Title", "Commit Message Generator"),
        ]
    );
    let request = provider.request("write it");
    assert_eq!(request.model, "some/model");
    assert_eq!(request.messages.len(), 1);
    assert_eq!(request.messages[0].role, "user");
    assert_eq!(request.messages[0].content, "write it");
    assert_eq!(request.max_tokens, 500);
    assert_eq!(request.temperature_tenths, 7);
}

#[test]
fn the_chat_backend_is_rate_limited_by_status_429() {
    let provider = OpenRouterProvider::new("k".to_string(), "m".to_string());
    let limited = |retry_after| ReplyPlan::Reject(ProviderError::RateLimited { retry_after });
    assert_eq!(provider.plan(head(429, Some("30"))), limited(Some(30)));
    assert_eq!(provider.plan(head(429, Some("0"))), limited(Some(0)));
    assert_eq!(provider.plan(head(429, None)), limited(None));
    assert_eq!(provider.plan(head(429, Some("soon"))), limited(None));
    assert_eq!(provider.plan(head(429, Some(" 30"))), limited(None));
    assert_eq!(provider.plan(head(429, Some("Wed, 21 Oct 2015 07:28:00 GMT"))), limited(None));
    assert_eq!(provider.plan(head(429, Some("18446744073709551616"))), limited(None));
    for status in [200, 201, 400, 401, 404, 428, 430, 500, 503] {
        assert_eq!(provider.plan(head(status, Some("30"))), ReplyPlan::ReadAnswer);
    }
    assert_eq!(
        provider.plan(Err("dns error".to_string())),
        ReplyPlan::Reject(ProviderError::NetworkError("dns error".to_string()))
    );
}

#[test]
fn the_chat_backend_answers_with_its_first_choice() {
    assert_eq!(
        OpenRouterProvider::read_reply(200, Ok(reply(&["  SUBJECT: a\nBODY: b \n", "other"]))),
        Ok("SUBJECT: a\nBODY: b".to_string())
    );
    let no_choices = ProviderError::ParseError("No choices in response".to_string());
    assert_eq!(OpenRouterProvider::read_reply(200, Ok(reply(&[]))), Err(no_choices.clone()));
    assert_eq!(
        OpenRouterProvider::read_reply(500, Ok(OpenRouterResponse { choices: None, error: None })),
        Err(no_choices)
    );
    let failed = OpenRouterResponse {
        choices: reply(&["ignored"]).choices,
        error: Some(ApiErrorResponse { message: "model overloaded".to_string() }),
    };
    assert_eq!(
        OpenRouterProvider::read_reply(503, Ok(failed)),
        Err(ProviderError::ApiError { status: 503, message: "model overloaded".to_string() })
    );
    assert_eq!(
        OpenRouterProvider::read_reply(200, Err("missing field `message`".to_string())),
        Err(ProviderError::ParseError("missing field `message`".to_string()))
    );
}

#[test]
fn the_single_shot_backend_asks_with_one_part() {
    let provider = GeminiProvider::new("secret".to_string());
    assert_eq!(provider.name(), "Gemini");
    assert_eq!(provider.model(), "gemini-flash-lite-latest");
    assert_eq!(
        provider.url(),
        "https://generativelanguage.googleapis.com/v1beta/models/gemini-flash-lite-latest:generateContent"
    );
    assert_eq!(provider.headers(), vec![pair("x-goog-api-key", "secret")]);
    assert_eq!(
        provider.request("write it"),
        GeminiRequest { text: "write it".to_string(), temperature_tenths: 7, max_output_tokens: 500 }
    );
}

#[test]
fn the_single_shot_backend_judges_a_reply_by_its_status() {
    let provider = GeminiProvider::new("k".to_string());
    assert_eq!(
        provider.plan(head(429, Some("30"))),
        ReplyPlan::Reject(ProviderError::RateLimited { retry_after: None })
    );
    for status in [200, 201, 204, 299] {
        assert_eq!(provider.plan(head(status, None)), ReplyPlan::ReadAnswer);
    }
    for status in [100, 199, 300, 301, 400, 401, 404, 500, 503] {
        assert_eq!(provider.plan(head(status, None)), ReplyPlan::ReadError);
    }
    assert_eq!(
        provider.plan(Err("connection reset".to_string())),
        ReplyPlan::Reject(ProviderError::NetworkError("connection reset".to_string()))
    );
    assert_eq!(
        GeminiProvider::read_error(403, Ok("{\"error\": \"forbidden\"}".to_string())),
        ProviderError::ApiError { status: 403, message: "{\"error\": \"forbidden\"}".to_string() }
    );
    assert_eq!(
        GeminiProvider::read_error(502, Err("connection closed".to_string())),
        ProviderError::ApiError { status: 502, message: String::new() }
    );
}

#[test]
fn the_single_shot_backend_answers_with_its_first_candidate() {
    assert_eq!(
        GeminiProvider::read_reply(document(GEMINI_REPLY)),
        Ok("SUBJECT: feat: x\nBODY: none".to_string())
    );
    let decoded: serde_json::Value = serde_json::from_str(GEMINI_REPLY).unwrap();
    assert_eq!(candidate_text(&decoded), Some("SUBJECT: feat: x\nBODY: none".to_string()));
    assert_eq!(
        GeminiProvider::read_document(&decoded),
        Ok("SUBJECT: feat: x\nBODY: none".to_string())
    );
}

#[test]
fn a_reply_without_the_answer_is_a_parse_error() {
    let missing = Err(ProviderError::ParseError("Failed to extract text from response".to_string()));
    for text in [
        "{}",
        "null",
        "[]",
        "\"just a string\"",
        r#"{"candidates": []}"#,
        r#"{"candidates": {"0": {"content": {"parts": [{"text": "keyed, not indexed"}]}}}}"#,
        r#"{"candidates": [{"content": {"parts": {"0": {"text": "keyed"}}}}]}"#,
        r#"{"candidates": [{"content": {"parts": [{"text": 5}]}}]}"#,
        r#"{"candidates": [{"content": {"parts": [{"txt": "misspelt"}]}}]}"#,
        r#"{"candidates": [{"content": {"parts": [[{"text": "too deep"}]]}}]}"#,
        r#"[{"content": {"parts": [{"text": "no candidates key"}]}}]"#,
    ] {
        assert_eq!(GeminiProvider::read_reply(document(text)), missing, "{}", text);
        let decoded: serde_json::Value = serde_json::from_str(text).unwrap();
        assert_eq!(candidate_text(&decoded), None, "{}", text);
    }
    assert_eq!(
        GeminiProvider::read_reply(document(r#"{"candidates": [{"content": {"parts": [{"text": ""}]}}]}"#)),
        Ok(String::new())
    );
}

#[test]
fn a_reply_that_is_no_document_is_a_parse_error() {
    for text in ["", "not json", "{\"candidates\": [", "{} trailing"] {
        match GeminiProvider::read_reply(document(text)) {
            Err(ProviderError::ParseError(reason)) => {
                assert_ne!(reason, "Failed to extract text from response", "{:?}", text);
                assert!(!reason.is_empty());
            }
            other => panic!("{:?} gave {:?}", text, other),
        }
    }
    assert!(matches!(
        GeminiProvider::read_reply(Ok(vec![0xff, 0xfe])),
        Err(ProviderError::ParseError(_))
    ));
    assert_eq!(
        GeminiProvider::read_reply(Err("body cut short".to_string())),
        Err(ProviderError::ParseError("body cut short".to_string()))
    );
}

#[test]
fn the_settings_choose_the_backend() {
    let mut config = Config {
        provider: Provider::OpenRouter,
        model: "chosen/model".to_string(),
        emoji_enabled: true,
        max_diff_lines: 200,
        min_message_length: 20,
        max_retries: 3,
        openrouter_api_key: Some("or-key".to_string()),
        google_api_key: Some("g-key".to_string()),
    };
    let provider = create_provider(&config);
    assert_eq!(
        provider,
        Backend::OpenRouter(OpenRouterProvider::new("or-key".to_string(), "chosen/model".to_string()))
    );
    assert_eq!(provider.name(), "OpenRouter");
    assert_eq!(provider.model(), "chosen/model");
    assert_eq!(provider.url(), "https://openrouter.ai/api/v1/chat/completions");
    assert_eq!(provider.headers()[0], pair("Authorization", "Bearer or-key"));
    assert_eq!(provider.plan(head(200, None)), ReplyPlan::ReadAnswer);
    config.provider = Provider::Gemini;
    let provider = create_provider(&config);
    assert_eq!(provider, Backend::Gemini(GeminiProvider::new("g-key".to_string())));
    assert_eq!(provider.name(), "Gemini");
    assert_eq!(provider.model(), "gemini-flash-lite-latest");
    assert_eq!(provider.headers(), vec![pair("x-goog-api-key", "g-key")]);
    assert_eq!(provider.plan(head(500, None)), ReplyPlan::ReadError);
}
