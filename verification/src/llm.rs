//! Scoring a call transcript for buying intent.

use vstd::prelude::*;
use vstd::string::StringExecFns;
use serde_json::Value;
use crate::error::CallError;
use crate::http::{accepted_body, fails_as, success_body, OutboundRequest, ProviderReply};
use crate::json::{
    array, array_value, as_integer, entries_view, get_element, get_member, element_of,
    integer_of, member_of, no_entries, object, object_value, parse, parsed, read_text, text,
    text_field, text_value, with_entry,
};
use crate::models::{
    clamp_score, clamped_score, opt_chars, AnalysisView, AnalyzeResponse, Session,
};
use crate::store::AppState;
use crate::text::{contains, lemma_too_short_to_hold, lowercase_of, occurs_in, to_lowercase};

verus! {

/// The summary given when there is nothing to read.
pub open spec fn no_transcript_summary() -> Seq<char> {
    "No transcript yet. Unable to assess intent."@
}

/// The summary given for any transcript that is not empty.
pub open spec fn engaged_summary() -> Seq<char> {
    "Prospect engaged briefly, confirmed role context, and showed openness to next steps based on the conversation."@
}

/// The recommendation for a score of 60 or more.
pub open spec fn follow_up_step() -> Seq<char> {
    "Send a short follow-up with 2 time options and a 1-paragraph value recap tied to the original intent signal."@
}

/// The recommendation for a score under 60.
pub open spec fn clarify_step() -> Seq<char> {
    "Ask 1 clarifying question via follow-up (role + current tooling) and offer a low-friction next step."@
}

/// The prospect agreed to something.
pub open spec fn shows_agreement(lowered: Seq<char>) -> bool {
    occurs_in("sure"@, lowered) || occurs_in("sounds good"@, lowered) || occurs_in(
        "send"@,
        lowered,
    )
}

/// The prospect spoke of a time to meet.
pub open spec fn shows_scheduling(lowered: Seq<char>) -> bool {
    occurs_in("meeting"@, lowered) || occurs_in("calendar"@, lowered) || occurs_in(
        "this week"@,
        lowered,
    )
}

/// The prospect turned the call down.
pub open spec fn shows_refusal(lowered: Seq<char>) -> bool {
    occurs_in("not interested"@, lowered) || occurs_in("stop"@, lowered)
}

/// The intent score of a lowercased transcript: 5 after a refusal; otherwise a
/// base of 20, plus 35 for agreement, plus 25 for scheduling.
pub open spec fn heuristic_score(lowered: Seq<char>) -> int {
    if shows_refusal(lowered) {
        5
    } else {
        20 + (if shows_agreement(lowered) {
            35int
        } else {
            0int
        }) + (if shows_scheduling(lowered) {
            25int
        } else {
            0int
        })
    }
}

/// The summary for a transcript, which depends only on whether there is one.
pub open spec fn heuristic_summary(transcript: Seq<char>) -> Seq<char> {
    if transcript.len() == 0 {
        no_transcript_summary()
    } else {
        engaged_summary()
    }
}

/// The recommended next step for a score.
pub open spec fn heuristic_next_step(score: int) -> Seq<char> {
    if score >= 60 {
        follow_up_step()
    } else {
        clarify_step()
    }
}

/// Scores a transcript that has already been lowercased.
pub fn score_lowercased(lowered: &str) -> (score: i32)
    ensures
        score == heuristic_score(lowered@),
        0 <= score <= 100,
{
    let mut score: i32 = 20;
    if contains(lowered, "sure") || contains(lowered, "sounds good") || contains(lowered, "send") {
        score = score + 35;
    }
    if contains(lowered, "meeting") || contains(lowered, "calendar") || contains(
        lowered,
        "this week",
    ) {
        score = score + 25;
    }
    if contains(lowered, "not interested") || contains(lowered, "stop") {
        score = 5;
    }
    score
}

/// Scores a transcript by keywords, case-insensitively, and picks the summary
/// and the next step that go with the score.
pub fn heuristic_analyze(transcript: &str) -> (out: (i32, String, String))
    ensures
        out.0 == heuristic_score(lowercase_of(transcript@)),
        out.1@ == heuristic_summary(transcript@),
        out.2@ == heuristic_next_step(out.0 as int),
        transcript@.len() == 0 ==> out.0 == 20 && out.1@ == no_transcript_summary(),
{
    let lowered = to_lowercase(transcript);
    proof {
        if transcript@.len() == 0 {
            law_silence_scores_base(lowered@);
        }
    }
    let score = score_lowercased(lowered.as_str());
    let summary = if transcript.is_empty() {
        "No transcript yet. Unable to assess intent.".to_owned()
    } else {
        "Prospect engaged briefly, confirmed role context, and showed openness to next steps based on the conversation.".to_owned()
    };
    let next_step = if score >= 60 {
        "Send a short follow-up with 2 time options and a 1-paragraph value recap tied to the original intent signal.".to_owned()
    } else {
        "Ask 1 clarifying question via follow-up (role + current tooling) and offer a low-friction next step.".to_owned()
    };
    (score, summary, next_step)
}

/// A transcript with nothing in it scores the base of 20.
pub proof fn law_silence_scores_base(lowered: Seq<char>)
    requires
        lowered.len() == 0,
    ensures
        heuristic_score(lowered) == 20,
{
    reveal_strlit("sure");
    reveal_strlit("sounds good");
    reveal_strlit("send");
    reveal_strlit("meeting");
    reveal_strlit("calendar");
    reveal_strlit("this week");
    reveal_strlit("not interested");
    reveal_strlit("stop");
    lemma_too_short_to_hold("sure"@, lowered);
    lemma_too_short_to_hold("sounds good"@, lowered);
    lemma_too_short_to_hold("send"@, lowered);
    lemma_too_short_to_hold("meeting"@, lowered);
    lemma_too_short_to_hold("calendar"@, lowered);
    lemma_too_short_to_hold("this week"@, lowered);
    lemma_too_short_to_hold("not interested"@, lowered);
    lemma_too_short_to_hold("stop"@, lowered);
}

/// A transcript in which the prospect says "not interested" scores 5,
/// whatever else is said.
pub proof fn law_refusal_scores_five(lowered: Seq<char>)
    requires
        occurs_in("not interested"@, lowered),
    ensures
        heuristic_score(lowered) == 5,
{
}

/// A transcript with both "sounds good" and "this week" in it, and no
/// refusal, scores 80: the base, the agreement and the scheduling.
pub proof fn law_agreement_and_scheduling_score_eighty(lowered: Seq<char>)
    requires
        occurs_in("sounds good"@, lowered),
        occurs_in("this week"@, lowered),
        !shows_refusal(lowered),
    ensures
        heuristic_score(lowered) == 80,
{
}

/// Every score lies between 5 and 80, so between 0 and 100 with nothing
/// to clamp.
pub proof fn law_score_in_range(lowered: Seq<char>)
    ensures
        5 <= heuristic_score(lowered) <= 80,
{
}

/// What the keyword heuristic makes of a transcript.
pub open spec fn heuristic_analysis(transcript: Seq<char>) -> AnalysisView {
    let score = heuristic_score(lowercase_of(transcript));
    AnalysisView {
        intent_score: score as i32,
        summary: heuristic_summary(transcript),
        next_step: heuristic_next_step(score),
    }
}

/// Where a completion is asked for.
pub open spec fn completions_endpoint() -> Seq<char> {
    "https://api.openai.com/v1/chat/completions"@
}

/// What the language model is told it is.
pub open spec fn analyst_role() -> Seq<char> {
    "You are an expert SDR analyst. Given a call transcript, output JSON only."@
}

/// What the language model is asked to do with a transcript.
pub open spec fn analysis_question(transcript: Seq<char>) -> Seq<char> {
    "Analyze this outbound SDR call transcript and output a strict JSON object with:\n- intent_score: integer 0..100\n- summary: short paragraph (max 80 words)\n- next_step: one concrete next action\n\nTranscript:\n"@
        + transcript
}

/// One message of a conversation with the language model.
pub open spec fn chat_message(role: Seq<char>, content: Seq<char>) -> Value {
    object_value(seq![("role"@, text_value(role)), ("content"@, text_value(content))])
}

/// The body of the request that asks a model to analyse a transcript, with
/// the answer wanted as a JSON object.
pub open spec fn analysis_request(model: Seq<char>, transcript: Seq<char>) -> Value {
    object_value(
        seq![
            ("model"@, text_value(model)),
            (
                "messages"@,
                array_value(
                    seq![
                        chat_message("system"@, analyst_role()),
                        chat_message("user"@, analysis_question(transcript)),
                    ],
                ),
            ),
            ("response_format"@, object_value(seq![("type"@, text_value("json_object"@))])),
        ],
    )
}

/// The text that a completion carries: the string at
/// `choices[0].message.content`.
pub open spec fn completion_content(doc: Value) -> Option<Seq<char>> {
    match member_of(doc, "choices"@) {
        Some(choices) => match element_of(choices, 0) {
            Some(first) => match member_of(first, "message"@) {
                Some(message) => text_field(message, "content"@),
                None => None,
            },
            None => None,
        },
        None => None,
    }
}

/// The integer under a key of an object; `None` where the key is missing or
/// holds anything but an integer within `i64`.
pub open spec fn integer_field(doc: Value, key: Seq<char>) -> Option<i64> {
    match member_of(doc, key) {
        Some(member) => integer_of(member),
        None => None,
    }
}

/// The score of every analysis read from a document lies between 0 and 100.
pub proof fn law_read_score_in_range(doc: Value)
    ensures
        0 <= analysis_in(doc).intent_score <= 100,
{
}

/// The analysis that a JSON document spells. A score that is missing, or is
/// no integer within `i64`, counts as 0, and any other is brought into the
/// range 0 to 100; a text that is missing counts as empty.
pub open spec fn analysis_in(doc: Value) -> AnalysisView {
    AnalysisView {
        intent_score: clamped_score(
            match integer_field(doc, "intent_score"@) {
                Some(n) => n as int,
                None => 0,
            },
        ) as i32,
        summary: match text_field(doc, "summary"@) {
            Some(s) => s,
            None => Seq::empty(),
        },
        next_step: match text_field(doc, "next_step"@) {
            Some(s) => s,
            None => Seq::empty(),
        },
    }
}

/// The analysis in the body of an answer to an analysis request: the body
/// is a completion, and the text it carries is a JSON document that spells
/// the analysis. `None` where the body is no JSON, carries no text, or the
/// text is no JSON.
pub open spec fn reply_analysis(body: Seq<char>) -> Option<AnalysisView> {
    match parsed(body) {
        Some(doc) => match completion_content(doc) {
            Some(content) => match parsed(content) {
                Some(out) => Some(analysis_in(out)),
                None => None,
            },
            None => None,
        },
        None => None,
    }
}

/// Whether an outcome is what a reply to an analysis request comes to: the
/// analysis it carries, or the failure that the reply spells, or
/// `ProviderResponseMalformed` for a success that carries none.
pub open spec fn analysis_reads_as(
    out: Result<AnalyzeResponse, CallError>,
    reply: ProviderReply,
) -> bool {
    match accepted_body(reply) {
        None => fails_as(out, reply),
        Some(body) => match reply_analysis(body) {
            Some(analysis) => out is Ok && out->Ok_0@ == analysis,
            None => out matches Err(CallError::ProviderResponseMalformed),
        },
    }
}

/// Whether a step is the finished analysis of a call in which nothing was
/// said: the base score of 20, the summary that says so, and the advice to
/// ask a clarifying question.
pub open spec fn finds_nothing_said(step: AnalysisStep) -> bool {
    step matches AnalysisStep::Done(out) && out.intent_score == 20 && out.summary@
        == no_transcript_summary() && out.next_step@ == clarify_step()
}

/// Whether the score of a step, if the step is a finished analysis, lies
/// between 0 and 100.
pub open spec fn scored_in_range(step: AnalysisStep) -> bool {
    step matches AnalysisStep::Done(out) ==> 0 <= out.intent_score <= 100
}

/// How an analysis goes on: it is done, or a language model has to be asked
/// first.
#[derive(Debug, Clone)]
pub enum AnalysisStep {
    Done(AnalyzeResponse),
    Ask(OutboundRequest),
}

/// The transcript of a session as far as there is one.
pub open spec fn transcript_so_far(transcript: Option<Seq<char>>) -> Seq<char> {
    match transcript {
        Some(t) => t,
        None => Seq::empty(),
    }
}

/// Whether `step` is the first step of analysing a transcript under a
/// configuration: the heuristic's analysis where no key for the language
/// model is configured, else the request to the model under that key.
pub open spec fn first_step(state: AppState, transcript: Option<Seq<char>>, step: AnalysisStep) -> bool {
    match state.openai_api_key {
        None => step matches AnalysisStep::Done(out) && out@ == heuristic_analysis(
            transcript_so_far(transcript),
        ),
        Some(key) => step matches AnalysisStep::Ask(request) && request.url@
            == completions_endpoint() && request.bearer_token@ == key@ && request.body
            == analysis_request(state.openai_model@, transcript_so_far(transcript)),
    }
}

/// Writes the request that asks a model to analyse a transcript.
pub fn build_analysis_request(model: &str, transcript: &str) -> (body: Value)
    ensures
        body == analysis_request(model@, transcript@),
{
    let mut question =
        "Analyze this outbound SDR call transcript and output a strict JSON object with:\n- intent_score: integer 0..100\n- summary: short paragraph (max 80 words)\n- next_step: one concrete next action\n\nTranscript:\n".to_owned();
    question.append(transcript);

    let system = no_entries();
    let system = with_entry(system, "role", text("system"));
    let system = with_entry(
        system,
        "content",
        text("You are an expert SDR analyst. Given a call transcript, output JSON only."),
    );
    assert(entries_view(system@) =~= seq![
        ("role"@, text_value("system"@)),
        ("content"@, text_value(analyst_role())),
    ]);

    let user = no_entries();
    let user = with_entry(user, "role", text("user"));
    let user = with_entry(user, "content", text(question.as_str()));
    assert(entries_view(user@) =~= seq![
        ("role"@, text_value("user"@)),
        ("content"@, text_value(analysis_question(transcript@))),
    ]);

    let mut messages: Vec<Value> = Vec::new();
    messages.push(object(system));
    messages.push(object(user));
    assert(messages@ =~= seq![
        chat_message("system"@, analyst_role()),
        chat_message("user"@, analysis_question(transcript@)),
    ]);

    let format = no_entries();
    let format = with_entry(format, "type", text("json_object"));

    let body = no_entries();
    let body = with_entry(body, "model", text(model));
    let body = with_entry(body, "messages", array(messages));
    let body = with_entry(body, "response_format", object(format));
    assert(entries_view(body@) =~= seq![
        ("model"@, text_value(model@)),
        (
            "messages"@,
            array_value(
                seq![
                    chat_message("system"@, analyst_role()),
                    chat_message("user"@, analysis_question(transcript@)),
                ],
            ),
        ),
        ("response_format"@, object_value(seq![("type"@, text_value("json_object"@))])),
    ]);
    object(body)
}

/// Takes the first step of analysing a session's transcript. Without a key
/// for the language model the keyword heuristic does the whole analysis.
/// With a key the model is to be asked, and the heuristic is not consulted,
/// not even where the model later fails.
pub fn analyze_session(state: &AppState, session: &Session) -> (step: AnalysisStep)
    ensures
        first_step(*state, opt_chars(session.transcript), step),
        state.openai_api_key is None && transcript_so_far(opt_chars(session.transcript)).len()
            == 0 ==> finds_nothing_said(step),
        scored_in_range(step),
{
    let transcript = match &session.transcript {
        Some(t) => t.clone(),
        None => String::new(),
    };
    match &state.openai_api_key {
        None => {
            let (intent_score, summary, next_step) = heuristic_analyze(transcript.as_str());
            AnalysisStep::Done(AnalyzeResponse { intent_score, summary, next_step })
        },
        Some(key) => AnalysisStep::Ask(
            OutboundRequest {
                url: "https://api.openai.com/v1/chat/completions".to_owned(),
                bearer_token: key.clone(),
                body: build_analysis_request(state.openai_model.as_str(), transcript.as_str()),
            },
        ),
    }
}

/// The text that a completion carries.
pub fn read_completion(doc: &Value) -> (content: Option<String>)
    ensures
        opt_chars(content) == completion_content(*doc),
{
    match get_member(doc, "choices") {
        Some(choices) => match get_element(choices, 0) {
            Some(first) => match get_member(first, "message") {
                Some(message) => read_text(message, "content"),
                None => None,
            },
            None => None,
        },
        None => None,
    }
}

/// The analysis that a JSON document spells.
pub fn read_analysis(doc: &Value) -> (out: AnalyzeResponse)
    ensures
        out@ == analysis_in(*doc),
        0 <= out.intent_score <= 100,
{
    let score: i64 = match get_member(doc, "intent_score") {
        Some(member) => match as_integer(member) {
            Some(n) => n,
            None => 0,
        },
        None => 0,
    };
    let summary = match read_text(doc, "summary") {
        Some(s) => s,
        None => String::new(),
    };
    let next_step = match read_text(doc, "next_step") {
        Some(s) => s,
        None => String::new(),
    };
    AnalyzeResponse { intent_score: clamp_score(score), summary, next_step }
}

/// What the language model's answer to an analysis request comes to: the
/// analysis, or why there is none. No answer is `ProviderUnavailable`; an
/// answer that reports no success is `ProviderRejected`; a success that
/// does not carry a JSON document in the text of its first choice is
/// `ProviderResponseMalformed`.
pub fn read_analysis_reply(reply: ProviderReply) -> (out: Result<AnalyzeResponse, CallError>)
    ensures
        analysis_reads_as(out, reply),
        out matches Ok(analysis) ==> 0 <= analysis.intent_score <= 100,
{
    let body = match success_body(reply) {
        Ok(body) => body,
        Err(e) => {
            return Err(e);
        },
    };
    let doc = match parse(body.as_str()) {
        Ok(doc) => doc,
        Err(_) => {
            return Err(CallError::ProviderResponseMalformed);
        },
    };
    let content = match read_completion(&doc) {
        Some(content) => content,
        None => {
            return Err(CallError::ProviderResponseMalformed);
        },
    };
    match parse(content.as_str()) {
        Ok(out) => Ok(read_analysis(&out)),
        Err(_) => Err(CallError::ProviderResponseMalformed),
    }
}

} // verus!
