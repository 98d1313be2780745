use serde_json::Value;
use time::OffsetDateTime;
use voice_sdr::error::CallError;
use voice_sdr::http::ProviderReply;
use voice_sdr::llm::AnalysisStep;
use voice_sdr::models::{AnalyzeResponse, CallRequest, CallStatus};
use voice_sdr::prompt::build_sdr_prompt;
use voice_sdr::routes::{
    analyze, finish_analysis, get_session, new_session, open_session, record_analysis, start_call,
    vapi_webhook,
};
use voice_sdr::store::AppState;
use voice_sdr::voice::{build_correlation_metadata, finish_call_flow};

fn json(text: &str) -> Value {
    serde_json::from_str(text).unwrap()
}

fn state(key: Option<&str>) -> AppState {
    AppState::new(
        "https://sdr.example".to_string(),
        true,
        key.map(|k| k.to_string()),
        "gpt-4o-mini".to_string(),
    )
}

fn request() -> CallRequest {
    CallRequest {
        name: "Ada".to_string(),
        company: "Engines Ltd".to_string(),
        phone: "+15550100".to_string(),
        signal: "posted about hiring SDRs".to_string(),
        pain_point: Some("slow outbound".to_string()),
        persona: None,
    }
}

#[test]
fn new_session_has_not_started() {
    let s = new_session(5, OffsetDateTime::UNIX_EPOCH, request());
    assert_eq!(s.id, 5);
    assert_eq!(s.created_at, OffsetDateTime::UNIX_EPOCH);
    assert_eq!(s.status, CallStatus::NotStarted);
    assert_eq!(s.name, "Ada");
    assert_eq!(s.company, "Engines Ltd");
    assert_eq!(s.phone, "+15550100");
    assert_eq!(s.signal, "posted about hiring SDRs");
    assert_eq!(s.pain_point.as_deref(), Some("slow outbound"));
    assert_eq!(s.persona, None);
    assert_eq!(s.provider_call_id, None);
    assert_eq!(s.prompt, build_sdr_prompt(&request()));
    assert_eq!(s.transcript, None);
    assert_eq!(s.intent_score, None);
    assert_eq!(s.summary, None);
    assert_eq!(s.next_step, None);
}

#[test]
fn start_call_resolves_to_a_calling_session_with_the_prospect() {
    let mut st = state(None);
    let response = start_call(&mut st, request()).unwrap();
    assert_eq!(response.status, CallStatus::Calling);
    assert_eq!(response.message, "Call started (or queued)");

    let view = get_session(&st, response.session_id).unwrap();
    assert_eq!(view.session_id, response.session_id);
    assert_eq!(view.status, CallStatus::Calling);
    assert_eq!(view.intent_score, None);
    assert_eq!(view.transcript, None);
    assert_eq!(view.summary, None);
    assert_eq!(view.next_step, None);

    let stored = st.sessions.get(response.session_id).unwrap();
    assert_eq!(stored.id, response.session_id);
    assert_eq!(stored.name, "Ada");
    assert_eq!(stored.company, "Engines Ltd");
    assert_eq!(stored.phone, "+15550100");
    assert_eq!(stored.signal, "posted about hiring SDRs");
    assert_eq!(stored.pain_point.as_deref(), Some("slow outbound"));
    assert_eq!(stored.persona, None);
    assert_eq!(stored.prompt, build_sdr_prompt(&request()));
    assert_eq!(stored.provider_call_id, None);
    assert_eq!(st.sessions.iterate().len(), 1);
}

#[test]
fn start_call_gives_each_session_its_own_identifier() {
    let mut st = state(None);
    let a = start_call(&mut st, request()).unwrap();
    let b = start_call(&mut st, request()).unwrap();
    assert_ne!(a.session_id, b.session_id);
    assert_eq!(st.sessions.iterate().len(), 2);
    // A random UUID says so in its version and variant bits.
    assert_eq!((a.session_id >> 76) & 0xf, 4);
    assert_eq!((a.session_id >> 62) & 0x3, 2);
}

#[test]
fn start_call_stamps_the_session_with_the_time() {
    let before = OffsetDateTime::now_utc();
    let mut st = state(None);
    let response = start_call(&mut st, request()).unwrap();
    let after = OffsetDateTime::now_utc();
    let stored = st.sessions.get(response.session_id).unwrap();
    assert!(before <= stored.created_at && stored.created_at <= after);
}

#[test]
fn open_session_refuses_a_taken_identifier() {
    let mut st = state(None);
    assert!(open_session(&mut st, 1, OffsetDateTime::UNIX_EPOCH, request()).is_ok());
    let mut other = request();
    other.name = "Grace".to_string();
    assert!(matches!(
        open_session(&mut st, 1, OffsetDateTime::UNIX_EPOCH, other),
        Err(CallError::DuplicateId)
    ));
    assert_eq!(st.sessions.get(1).unwrap().name, "Ada");
}

#[test]
fn get_session_of_a_missing_session() {
    let st = state(None);
    assert!(matches!(get_session(&st, 1), Err(CallError::NotFound)));
}

#[test]
fn analyze_of_a_missing_session() {
    let mut st = state(None);
    assert!(matches!(analyze(&mut st, 1), Err(CallError::NotFound)));
}

#[test]
fn analyze_records_what_the_heuristic_found() {
    let mut st = state(None);
    open_session(&mut st, 1, OffsetDateTime::UNIX_EPOCH, request()).unwrap();
    let payload = json(r#"{"callId": "c", "event": "call.ended", "transcript": "Sure, send it."}"#);
    let mut payload = payload;
    payload["metadata"] = build_correlation_metadata(1);
    vapi_webhook(&mut st, &payload).unwrap();

    let out = match analyze(&mut st, 1).unwrap() {
        AnalysisStep::Done(out) => out,
        AnalysisStep::Ask(_) => panic!("no model is configured"),
    };
    assert_eq!(out.intent_score, 55);

    let view = get_session(&st, 1).unwrap();
    assert_eq!(view.status, CallStatus::Completed);
    assert_eq!(view.transcript.as_deref(), Some("Sure, send it."));
    assert_eq!(view.intent_score, Some(55));
    assert_eq!(view.summary, Some(out.summary.clone()));
    assert_eq!(view.next_step, Some(out.next_step.clone()));
}

#[test]
fn analyze_with_a_key_asks_the_model() {
    let mut st = state(Some("sk-test"));
    open_session(&mut st, 1, OffsetDateTime::UNIX_EPOCH, request()).unwrap();
    match analyze(&mut st, 1).unwrap() {
        AnalysisStep::Ask(request) => assert_eq!(request.bearer_token, "sk-test"),
        AnalysisStep::Done(_) => panic!("a model is configured"),
    }
    // Nothing is recorded before the model has answered.
    let view = get_session(&st, 1).unwrap();
    assert_eq!(view.intent_score, None);
    assert_eq!(view.summary, None);
    assert_eq!(view.next_step, None);
}

#[test]
fn record_analysis_overwrites_and_ignores_missing_sessions() {
    let mut st = state(None);
    open_session(&mut st, 1, OffsetDateTime::UNIX_EPOCH, request()).unwrap();
    let first = AnalyzeResponse {
        intent_score: 10,
        summary: "a".to_string(),
        next_step: "b".to_string(),
    };
    let second = AnalyzeResponse {
        intent_score: 90,
        summary: "c".to_string(),
        next_step: "d".to_string(),
    };
    record_analysis(&mut st, 1, &first);
    record_analysis(&mut st, 1, &second);
    record_analysis(&mut st, 2, &first);
    let view = get_session(&st, 1).unwrap();
    assert_eq!(view.intent_score, Some(90));
    assert_eq!(view.summary.as_deref(), Some("c"));
    assert_eq!(view.next_step.as_deref(), Some("d"));
    assert_eq!(view.status, CallStatus::Calling);
    assert!(matches!(get_session(&st, 2), Err(CallError::NotFound)));
}

#[test]
fn finish_analysis_records_what_the_model_found() {
    let mut st = state(Some("sk-test"));
    open_session(&mut st, 1, OffsetDateTime::UNIX_EPOCH, request()).unwrap();
    let body = r#"{"choices": [{"message": {"content": "{\"intent_score\": 64, \"summary\": \"Keen.\", \"next_step\": \"Call back.\"}"}}]}"#;
    let reply = ProviderReply::Answered { status: 200, body: body.to_string() };
    let out = finish_analysis(&mut st, 1, reply).unwrap();
    assert_eq!(out.intent_score, 64);
    let view = get_session(&st, 1).unwrap();
    assert_eq!(view.intent_score, Some(64));
    assert_eq!(view.summary.as_deref(), Some("Keen."));
    assert_eq!(view.next_step.as_deref(), Some("Call back."));
}

#[test]
fn finish_analysis_keeps_the_score_in_range() {
    let mut st = state(Some("sk-test"));
    open_session(&mut st, 1, OffsetDateTime::UNIX_EPOCH, request()).unwrap();
    let body = r#"{"choices": [{"message": {"content": "{\"intent_score\": 150, \"summary\": \"s\", \"next_step\": \"n\"}"}}]}"#;
    let reply = ProviderReply::Answered { status: 200, body: body.to_string() };
    let out = finish_analysis(&mut st, 1, reply).unwrap();
    assert_eq!(out.intent_score, 100);
    assert_eq!(get_session(&st, 1).unwrap().intent_score, Some(100));
}

#[test]
fn finish_analysis_records_nothing_on_failure() {
    for reply in [
        ProviderReply::Unreachable { reason: "down".to_string() },
        ProviderReply::Answered { status: 500, body: "boom".to_string() },
        ProviderReply::Answered { status: 200, body: "not json".to_string() },
        ProviderReply::Answered { status: 200, body: r#"{"choices": []}"#.to_string() },
    ] {
        let mut st = state(Some("sk-test"));
        open_session(&mut st, 1, OffsetDateTime::UNIX_EPOCH, request()).unwrap();
        record_analysis(
            &mut st,
            1,
            &AnalyzeResponse { intent_score: 30, summary: "old".to_string(), next_step: "old".to_string() },
        );
        assert!(finish_analysis(&mut st, 1, reply).is_err());
        let view = get_session(&st, 1).unwrap();
        assert_eq!(view.intent_score, Some(30));
        assert_eq!(view.summary.as_deref(), Some("old"));
        assert_eq!(view.next_step.as_deref(), Some("old"));
    }
}

#[test]
fn finish_analysis_for_a_vanished_session_still_answers() {
    let mut st = state(Some("sk-test"));
    let body = r#"{"choices": [{"message": {"content": "{\"intent_score\": 9}"}}]}"#;
    let reply = ProviderReply::Answered { status: 200, body: body.to_string() };
    assert_eq!(finish_analysis(&mut st, 1, reply).unwrap().intent_score, 9);
    assert!(st.sessions.iterate().is_empty());
}

#[test]
fn analyze_without_key_and_transcript_finds_nothing_said() {
    let mut st = state(None);
    open_session(&mut st, 1, OffsetDateTime::UNIX_EPOCH, request()).unwrap();
    match analyze(&mut st, 1).unwrap() {
        AnalysisStep::Done(out) => {
            assert_eq!(out.intent_score, 20);
            assert_eq!(out.summary, "No transcript yet. Unable to assess intent.");
            assert_eq!(
                out.next_step,
                "Ask 1 clarifying question via follow-up (role + current tooling) and offer a low-friction next step."
            );
        }
        AnalysisStep::Ask(_) => panic!("no model is configured"),
    }
}

#[test]
fn record_analysis_brings_the_score_into_range() {
    let mut st = state(None);
    open_session(&mut st, 1, OffsetDateTime::UNIX_EPOCH, request()).unwrap();
    record_analysis(
        &mut st,
        1,
        &AnalyzeResponse { intent_score: 400, summary: "s".to_string(), next_step: "n".to_string() },
    );
    assert_eq!(get_session(&st, 1).unwrap().intent_score, Some(100));
}

#[test]
fn webhook_without_metadata_is_matched_by_its_call() {
    let mut st = state(None);
    open_session(&mut st, 1, OffsetDateTime::UNIX_EPOCH, request()).unwrap();
    open_session(&mut st, 2, OffsetDateTime::UNIX_EPOCH, request()).unwrap();
    let placed = ProviderReply::Answered { status: 200, body: r#"{"id": "call-2"}"#.to_string() };
    finish_call_flow(&mut st, 2, placed).unwrap();
    let payload = json(r#"{"callId": "call-2", "event": "call.ended", "transcript": "bye"}"#);
    vapi_webhook(&mut st, &payload).unwrap();
    assert_eq!(get_session(&st, 2).unwrap().status, CallStatus::Completed);
    assert_eq!(get_session(&st, 2).unwrap().transcript.as_deref(), Some("bye"));
    assert_eq!(get_session(&st, 1).unwrap().status, CallStatus::Calling);
    let stray = json(r#"{"callId": "call-9", "event": "call.ended"}"#);
    assert!(matches!(vapi_webhook(&mut st, &stray), Err(CallError::UnknownCall)));
}

#[test]
fn webhook_without_a_call_is_refused() {
    let mut st = state(None);
    open_session(&mut st, 1, OffsetDateTime::UNIX_EPOCH, request()).unwrap();
    let mut payload = json(r#"{"status": "ended"}"#);
    payload["metadata"] = build_correlation_metadata(1);
    assert!(matches!(vapi_webhook(&mut st, &payload), Err(CallError::UnknownCall)));
    assert_eq!(get_session(&st, 1).unwrap().status, CallStatus::Calling);
}

#[test]
fn webhook_for_an_unknown_call_is_refused() {
    let mut st = state(None);
    open_session(&mut st, 1, OffsetDateTime::UNIX_EPOCH, request()).unwrap();
    let payload = json(r#"{"callId": "nobody", "status": "ended"}"#);
    assert!(matches!(vapi_webhook(&mut st, &payload), Err(CallError::UnknownCall)));
}

#[test]
fn webhook_with_nested_metadata_reaches_the_session() {
    let mut st = state(None);
    open_session(&mut st, 1, OffsetDateTime::UNIX_EPOCH, request()).unwrap();
    let mut payload =
        json(r#"{"callId": "c", "event": "call.failed", "call": {"summary": "no answer"}}"#);
    payload["call"]["metadata"] = build_correlation_metadata(1);
    vapi_webhook(&mut st, &payload).unwrap();
    let view = get_session(&st, 1).unwrap();
    assert_eq!(view.status, CallStatus::Failed);
    assert_eq!(view.transcript.as_deref(), Some("no answer"));
}
