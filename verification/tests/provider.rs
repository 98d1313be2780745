use serde_json::Value;
use voice_sdr::error::{CallError, Credential};
use voice_sdr::http::{success_body, ProviderReply};
use voice_sdr::json::{empty_object, read_doc, read_text};
use voice_sdr::text::decimal_text;
use voice_sdr::voice_provider::{VapiCallObject, VapiProvider, VapiWebhookBody};

fn provider() -> VapiProvider {
    VapiProvider::from_env(Some("key-1".to_string()), Some("phone-1".to_string())).unwrap()
}

fn json(text: &str) -> Value {
    serde_json::from_str(text).unwrap()
}

fn answered(status: u16, body: &str) -> ProviderReply {
    ProviderReply::Answered { status, body: body.to_string() }
}

fn bare_body(call_id: &str) -> VapiWebhookBody {
    VapiWebhookBody {
        call_id: call_id.to_string(),
        status: None,
        event: None,
        transcript: None,
        metadata: None,
        call: None,
    }
}

#[test]
fn from_env_reports_the_api_key_first() {
    assert!(matches!(
        VapiProvider::from_env(None, None),
        Err(CallError::MissingCredential { which: Credential::ApiKey })
    ));
    assert!(matches!(
        VapiProvider::from_env(None, Some("phone".to_string())),
        Err(CallError::MissingCredential { which: Credential::ApiKey })
    ));
}

#[test]
fn from_env_reports_the_phone_number() {
    assert!(matches!(
        VapiProvider::from_env(Some("key".to_string()), None),
        Err(CallError::MissingCredential { which: Credential::PhoneNumberId })
    ));
}

#[test]
fn create_call_builds_the_request() {
    let metadata = json(r#"{"session_id": "abc", "extra": [1, 2.5, null]}"#);
    let request = provider().create_call(
        "https://sdr.example",
        "+15550100",
        "Hi Ada".to_string(),
        "Be brief.".to_string(),
        metadata,
    );
    assert_eq!(request.url, "https://api.vapi.ai/call");
    assert_eq!(request.bearer_token, "key-1");
    let expected = json(
        r#"{
            "phoneNumberId": "phone-1",
            "customer": {"number": "+15550100"},
            "metadata": {"session_id": "abc", "extra": [1, 2.5, null]},
            "assistant": {
                "firstMessage": "Hi Ada",
                "systemPrompt": "Be brief.",
                "model": {"provider": "openai", "model": "gpt-4o-mini"},
                "voice": {"provider": "11labs", "voiceId": "Zayd"}
            },
            "webhookUrl": "https://sdr.example/webhook/vapi"
        }"#,
    );
    assert_eq!(request.body, expected);
}

#[test]
fn create_call_holds_the_metadata_as_given() {
    let metadata = json(r#"{"session_id": "abc", "customer": 1, "metadata": {"deep": true}}"#);
    let request = provider().create_call("b", "p", String::new(), String::new(), metadata.clone());
    assert_eq!(request.body.get("metadata"), Some(&metadata));
}

#[test]
fn empty_object_has_no_members() {
    let doc = empty_object();
    assert_eq!(doc, json("{}"));
    assert_eq!(read_text(&doc, "session_id"), None);
    assert_eq!(read_doc(&doc, "session_id"), None);
}

#[test]
fn success_body_tells_replies_apart() {
    assert_eq!(success_body(answered(200, "a")).unwrap(), "a");
    assert_eq!(success_body(answered(299, "b")).unwrap(), "b");
    assert!(matches!(
        success_body(answered(199, "c")),
        Err(CallError::ProviderRejected { status: 199, .. })
    ));
    assert!(matches!(
        success_body(answered(300, "d")),
        Err(CallError::ProviderRejected { status: 300, .. })
    ));
    assert!(matches!(
        success_body(ProviderReply::Unreachable { reason: "down".to_string() }),
        Err(CallError::ProviderUnavailable { .. })
    ));
}

#[test]
fn call_reply_with_id() {
    let reply = answered(201, r#"{"id": "call-42", "status": "queued"}"#);
    assert_eq!(VapiProvider::read_call_reply(reply).unwrap(), "call-42");
}

#[test]
fn call_reply_unreachable() {
    let reply = ProviderReply::Unreachable { reason: "connection refused".to_string() };
    match VapiProvider::read_call_reply(reply) {
        Err(CallError::ProviderUnavailable { reason }) => assert_eq!(reason, "connection refused"),
        other => panic!("{:?}", other),
    }
}

#[test]
fn call_reply_rejected_carries_status_and_body() {
    match VapiProvider::read_call_reply(answered(401, r#"{"id": "ignored"}"#)) {
        Err(CallError::ProviderRejected { status, body }) => {
            assert_eq!(status, 401);
            assert_eq!(body, r#"{"id": "ignored"}"#);
        }
        other => panic!("{:?}", other),
    }
}

#[test]
fn call_reply_without_id_is_malformed() {
    for body in ["", "oops", "{}", r#"{"id": 7}"#, r#"{"id": null}"#, r#"["id"]"#, r#"{"ID": "x"}"#] {
        assert!(
            matches!(
                VapiProvider::read_call_reply(answered(200, body)),
                Err(CallError::ProviderResponseMalformed)
            ),
            "{}",
            body
        );
    }
}

#[test]
fn call_id_of_reads_the_id_member() {
    assert_eq!(VapiProvider::call_id_of(&json(r#"{"id": "c"}"#)), Some("c".to_string()));
    assert_eq!(VapiProvider::call_id_of(&json(r#"{"callId": "c"}"#)), None);
}

#[test]
fn read_text_wants_a_string_member() {
    let doc = json(r#"{"a": "text", "b": 1, "c": null, "d": {"a": "inner"}}"#);
    assert_eq!(read_text(&doc, "a"), Some("text".to_string()));
    assert_eq!(read_text(&doc, "b"), None);
    assert_eq!(read_text(&doc, "c"), None);
    assert_eq!(read_text(&doc, "d"), None);
    assert_eq!(read_text(&doc, "missing"), None);
    assert_eq!(read_text(&json(r#""a""#), "a"), None);
}

#[test]
fn read_doc_skips_null() {
    let doc = json(r#"{"a": {"k": [1]}, "b": null, "c": false}"#);
    assert_eq!(read_doc(&doc, "a"), Some(json(r#"{"k": [1]}"#)));
    assert_eq!(read_doc(&doc, "b"), None);
    assert_eq!(read_doc(&doc, "c"), Some(Value::Bool(false)));
    assert_eq!(read_doc(&doc, "missing"), None);
    assert_eq!(read_doc(&json("[1]"), "0"), None);
}

#[test]
fn normalize_minimal_body() {
    let event = VapiProvider::normalize_webhook(bare_body("call-1"));
    assert_eq!(event.provider, "vapi");
    assert_eq!(event.provider_call_id, "call-1");
    assert_eq!(event.status, "unknown");
    assert_eq!(event.transcript, None);
    assert_eq!(event.metadata, json("{}"));
}

#[test]
fn normalize_prefers_status_over_event() {
    let mut body = bare_body("c");
    body.event = Some("call.ended".to_string());
    assert_eq!(VapiProvider::normalize_webhook(body.clone()).status, "call.ended");
    body.status = Some("in-progress".to_string());
    assert_eq!(VapiProvider::normalize_webhook(body).status, "in-progress");
}

#[test]
fn normalize_transcript_fallbacks() {
    let mut body = bare_body("c");
    body.call = Some(VapiCallObject {
        transcript: None,
        summary: Some("summary".to_string()),
        metadata: None,
    });
    assert_eq!(VapiProvider::normalize_webhook(body.clone()).transcript.as_deref(), Some("summary"));
    body.call.as_mut().unwrap().transcript = Some("nested".to_string());
    assert_eq!(VapiProvider::normalize_webhook(body.clone()).transcript.as_deref(), Some("nested"));
    body.transcript = Some("top".to_string());
    assert_eq!(VapiProvider::normalize_webhook(body).transcript.as_deref(), Some("top"));
}

#[test]
fn normalize_metadata_fallbacks() {
    let mut body = bare_body("c");
    body.call = Some(VapiCallObject {
        transcript: None,
        summary: None,
        metadata: Some(json(r#"{"from": "nested"}"#)),
    });
    assert_eq!(VapiProvider::normalize_webhook(body.clone()).metadata, json(r#"{"from": "nested"}"#));
    body.metadata = Some(json(r#"{"from": "top"}"#));
    assert_eq!(VapiProvider::normalize_webhook(body.clone()).metadata, json(r#"{"from": "top"}"#));
    body.metadata = None;
    body.call.as_mut().unwrap().metadata = None;
    assert_eq!(VapiProvider::normalize_webhook(body).metadata, json("{}"));
}

#[test]
fn read_payload_reads_every_member() {
    let raw = json(
        r#"{
            "callId": "call-9",
            "status": "ended",
            "event": "call.ended",
            "transcript": "hello",
            "metadata": {"session_id": "s"},
            "call": {"transcript": "nested", "summary": "sum", "metadata": {"n": 1}}
        }"#,
    );
    let body = VapiProvider::read_payload(&raw).unwrap();
    assert_eq!(body.call_id, "call-9");
    assert_eq!(body.status.as_deref(), Some("ended"));
    assert_eq!(body.event.as_deref(), Some("call.ended"));
    assert_eq!(body.transcript.as_deref(), Some("hello"));
    assert_eq!(body.metadata, Some(json(r#"{"session_id": "s"}"#)));
    let call = body.call.unwrap();
    assert_eq!(call.transcript.as_deref(), Some("nested"));
    assert_eq!(call.summary.as_deref(), Some("sum"));
    assert_eq!(call.metadata, Some(json(r#"{"n": 1}"#)));
}

#[test]
fn read_payload_finds_the_call_under_older_names() {
    assert_eq!(VapiProvider::read_payload(&json(r#"{"call_id": "b"}"#)).unwrap().call_id, "b");
    assert_eq!(VapiProvider::read_payload(&json(r#"{"id": "c"}"#)).unwrap().call_id, "c");
    let all = json(r#"{"id": "c", "call_id": "b", "callId": "a"}"#);
    assert_eq!(VapiProvider::read_payload(&all).unwrap().call_id, "a");
    let two = json(r#"{"id": "c", "call_id": "b", "callId": 5}"#);
    assert_eq!(VapiProvider::read_payload(&two).unwrap().call_id, "b");
}

#[test]
fn read_payload_needs_a_call() {
    for text in ["{}", "[]", "null", r#""callId""#, r#"{"callId": 5}"#, r#"{"call": {"id": "x"}}"#] {
        assert!(VapiProvider::read_payload(&json(text)).is_none(), "{}", text);
        assert!(VapiProvider::normalize_payload(&json(text)).is_none(), "{}", text);
    }
}

#[test]
fn malformed_optional_members_degrade_to_defaults() {
    let raw = json(
        r#"{
            "callId": "call-1",
            "status": 404,
            "event": ["call.ended"],
            "transcript": {"text": "x"},
            "metadata": null,
            "call": "none"
        }"#,
    );
    let body = VapiProvider::read_payload(&raw).unwrap();
    assert_eq!(body.status, None);
    assert_eq!(body.event, None);
    assert_eq!(body.transcript, None);
    assert_eq!(body.metadata, None);
    let call = body.call.unwrap();
    assert_eq!(call.transcript, None);
    assert_eq!(call.summary, None);
    assert_eq!(call.metadata, None);
    let event = VapiProvider::normalize_payload(&raw).unwrap();
    assert_eq!(event.provider, "vapi");
    assert_eq!(event.provider_call_id, "call-1");
    assert_eq!(event.status, "unknown");
    assert_eq!(event.transcript, None);
    assert_eq!(event.metadata, json("{}"));
}

#[test]
fn null_call_counts_as_absent() {
    let body = VapiProvider::read_payload(&json(r#"{"callId": "c", "call": null}"#)).unwrap();
    assert!(body.call.is_none());
}

#[test]
fn normalize_payload_uses_nested_members() {
    let raw = json(
        r#"{"callId": "c", "event": "call.failed",
            "call": {"summary": "no answer", "metadata": {"session_id": "s"}}}"#,
    );
    let event = VapiProvider::normalize_payload(&raw).unwrap();
    assert_eq!(event.status, "call.failed");
    assert_eq!(event.transcript.as_deref(), Some("no answer"));
    assert_eq!(event.metadata, json(r#"{"session_id": "s"}"#));
}

#[test]
fn errors_in_words() {
    assert_eq!(CallError::NotFound.message(), "session not found");
    assert_eq!(CallError::DuplicateId.message(), "session identifier already in use");
    assert_eq!(CallError::UnknownCall.message(), "unknown provider call id");
    assert_eq!(
        CallError::MissingCredential { which: Credential::ApiKey }.message(),
        "VAPI_API_KEY missing"
    );
    assert_eq!(
        CallError::MissingCredential { which: Credential::PhoneNumberId }.message(),
        "VAPI_PHONE_NUMBER_ID missing"
    );
    assert_eq!(
        CallError::ProviderUnavailable { reason: "timed out".to_string() }.message(),
        "provider unreachable: timed out"
    );
    assert_eq!(
        CallError::ProviderRejected { status: 404, body: "no such number".to_string() }.message(),
        "provider error: 404 no such number"
    );
    assert_eq!(CallError::ProviderResponseMalformed.message(), "provider response malformed");
}

#[test]
fn errors_as_http_status() {
    assert_eq!(CallError::NotFound.http_status(), 404);
    assert_eq!(CallError::DuplicateId.http_status(), 500);
    assert_eq!(CallError::UnknownCall.http_status(), 400);
    assert_eq!(CallError::MissingCredential { which: Credential::ApiKey }.http_status(), 400);
    assert_eq!(CallError::ProviderUnavailable { reason: String::new() }.http_status(), 400);
    assert_eq!(CallError::ProviderRejected { status: 503, body: String::new() }.http_status(), 400);
    assert_eq!(CallError::ProviderResponseMalformed.http_status(), 400);
}

#[test]
fn numbers_in_decimal() {
    for n in [0u16, 7, 9, 10, 11, 99, 100, 101, 404, 999, 1000, 9999, 10000, 40960, u16::MAX] {
        assert_eq!(decimal_text(n), n.to_string());
    }
}
