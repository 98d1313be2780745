//! What the service does for each kind of request, short of sending and
//! receiving.

use vstd::prelude::*;
use serde_json::Value;
use time::OffsetDateTime;
use crate::error::CallError;
use crate::ident::fresh_id;
use crate::http::ProviderReply;
use crate::llm::{
    analysis_reads_as, analyze_session, finds_nothing_said, first_step, read_analysis_reply,
    scored_in_range, transcript_so_far, AnalysisStep,
};
use crate::models::{
    apply_update, opt_chars, AnalyzeResponse, CallRequest, CallRequestView, CallResponse,
    CallStatus, Session, SessionId, SessionUpdate, SessionView, UiSessionView, UpdateView,
};
use crate::prompt::{build_sdr_prompt, sdr_prompt};
use crate::store::{keyed_by_id, same_config, updated, AppState, Sessions};
use crate::voice::{handle_normalized_event, handled, matched_by_call};
use crate::voice_provider::{carries_no_metadata, normalized, payload_body, VapiProvider};

verus! {

/// The session that a call request creates: the prospect as requested, the
/// prompt written for them, no call placed and nothing learned yet.
pub open spec fn created_session(
    id: SessionId,
    created_at: OffsetDateTime,
    req: CallRequestView,
) -> SessionView {
    SessionView {
        id,
        created_at,
        name: req.name,
        company: req.company,
        phone: req.phone,
        signal: req.signal,
        pain_point: req.pain_point,
        persona: req.persona,
        status: CallStatus::NotStarted,
        provider_call_id: None,
        prompt: sdr_prompt(req),
        transcript: None,
        intent_score: None,
        summary: None,
        next_step: None,
    }
}

/// The session that is stored for a call request: the one created for it,
/// with the request accepted. Its status is `Calling` from the first moment
/// that anyone can look it up, before the provider has confirmed anything.
pub open spec fn opened_session(
    id: SessionId,
    created_at: OffsetDateTime,
    req: CallRequestView,
) -> SessionView {
    apply_update(created_session(id, created_at, req), UpdateView::Accepted)
}

/// What a caller is told when a session has been opened.
pub open spec fn call_started_message() -> Seq<char> {
    "Call started (or queued)"@
}

/// Whether a projection shows a session as it is.
pub open spec fn shows(view: UiSessionView, s: SessionView) -> bool {
    &&& view.session_id == s.id
    &&& view.status == s.status
    &&& view.intent_score == s.intent_score
    &&& opt_chars(view.transcript) == s.transcript
    &&& opt_chars(view.summary) == s.summary
    &&& opt_chars(view.next_step) == s.next_step
}

/// The change that records an analysis.
pub open spec fn analyzed_as(out: AnalyzeResponse) -> UpdateView {
    UpdateView::Analyzed {
        intent_score: out.intent_score,
        summary: out.summary@,
        next_step: out.next_step@,
    }
}

/// Whether `response` and `after` are what opening a session under `id`
/// makes of the sessions `before`: the session is stored and the caller is
/// told that the call is under way, or the identifier is taken and nothing
/// changes.
pub open spec fn opened(
    before: Sessions,
    id: SessionId,
    created_at: OffsetDateTime,
    req: CallRequestView,
    response: Result<CallResponse, CallError>,
    after: Sessions,
) -> bool {
    if before.contains_key(id) {
        (response matches Err(CallError::DuplicateId)) && after == before
    } else {
        &&& response is Ok
        &&& response->Ok_0.session_id == id
        &&& response->Ok_0.status == CallStatus::Calling
        &&& response->Ok_0.message@ == call_started_message()
        &&& after == before.insert(id, opened_session(id, created_at, req))
    }
}

/// Makes the session that a call request creates.
pub fn new_session(id: SessionId, created_at: OffsetDateTime, req: CallRequest) -> (session: Session)
    ensures
        session@ == created_session(id, created_at, req@),
{
    let prompt = build_sdr_prompt(&req);
    Session {
        id,
        created_at,
        name: req.name,
        company: req.company,
        phone: req.phone,
        signal: req.signal,
        pain_point: req.pain_point,
        persona: req.persona,
        status: CallStatus::NotStarted,
        provider_call_id: None,
        prompt,
        transcript: None,
        intent_score: None,
        summary: None,
        next_step: None,
    }
}

/// Opens a session under a given identifier and creation time: creates it,
/// accepts the request and stores it. The caller is told `Calling`, which is
/// also what the stored session says.
pub fn open_session(
    state: &mut AppState,
    id: SessionId,
    created_at: OffsetDateTime,
    req: CallRequest,
) -> (response: Result<CallResponse, CallError>)
    ensures
        opened(old(state).sessions@, id, created_at, req@, response, final(state).sessions@),
        same_config(*old(state), *final(state)),
        old(state).sessions.wf() ==> final(state).sessions.wf(),
{
    let session = new_session(id, created_at, req).apply(SessionUpdate::Accepted);
    match state.sessions.insert(session) {
        Ok(()) => Ok(
            CallResponse {
                session_id: id,
                status: CallStatus::Calling,
                message: "Call started (or queued)".to_owned(),
            },
        ),
        Err(e) => Err(e),
    }
}

/// Accepts a call request: opens a session under a fresh random identifier,
/// created now. Placing the call is left to the caller, who goes on with
/// `start_call_flow`.
pub fn start_call(state: &mut AppState, req: CallRequest) -> (response: Result<
    CallResponse,
    CallError,
>)
    ensures
        exists|id: SessionId, created_at: OffsetDateTime|
            opened(
                old(state).sessions@,
                id,
                created_at,
                req@,
                response,
                final(state).sessions@,
            ),
        same_config(*old(state), *final(state)),
        old(state).sessions.wf() ==> final(state).sessions.wf(),
{
    let id = fresh_id();
    let created_at = OffsetDateTime::now_utc();
    open_session(state, id, created_at, req)
}

/// Shows a session to a caller.
pub fn get_session(state: &AppState, id: SessionId) -> (view: Result<UiSessionView, CallError>)
    ensures
        state.sessions@.contains_key(id) ==> view is Ok && shows(
            view->Ok_0,
            state.sessions@[id],
        ),
        !state.sessions@.contains_key(id) ==> (view matches Err(CallError::NotFound)),
{
    match state.sessions.get(id) {
        Ok(s) => Ok(
            UiSessionView {
                session_id: s.id,
                status: s.status,
                intent_score: s.intent_score,
                transcript: s.transcript,
                summary: s.summary,
                next_step: s.next_step,
            },
        ),
        Err(e) => Err(e),
    }
}

/// The sessions after the first step of an analysis: an analysis that is
/// done is recorded with its session; where the language model has yet to
/// be asked, or there is no such session, nothing changes.
pub open spec fn after_first_step(
    before: Sessions,
    id: SessionId,
    step: Result<AnalysisStep, CallError>,
) -> Sessions {
    match step {
        Ok(AnalysisStep::Done(out)) => updated(before, id, analyzed_as(out)),
        _ => before,
    }
}

/// Takes the first step of analysing a session on demand, and records the
/// analysis if that step completes it. There is no step for a session that
/// the store does not have.
pub fn analyze(state: &mut AppState, id: SessionId) -> (step: Result<AnalysisStep, CallError>)
    ensures
        !old(state).sessions@.contains_key(id) ==> (step matches Err(CallError::NotFound)),
        old(state).sessions@.contains_key(id) ==> step is Ok && first_step(
            *old(state),
            old(state).sessions@[id].transcript,
            step->Ok_0,
        ),
        old(state).sessions@.contains_key(id) && old(state).openai_api_key is None
            && transcript_so_far(old(state).sessions@[id].transcript).len() == 0 ==> step is Ok
            && finds_nothing_said(step->Ok_0),
        step matches Ok(s) ==> scored_in_range(s),
        final(state).sessions@ == after_first_step(old(state).sessions@, id, step),
        same_config(*old(state), *final(state)),
        old(state).sessions.wf() ==> final(state).sessions.wf(),
{
    let session = match state.sessions.get(id) {
        Ok(session) => session,
        Err(e) => {
            return Err(e);
        },
    };
    let step = analyze_session(state, &session);
    match &step {
        AnalysisStep::Done(out) => {
            record_analysis(state, id, out);
        },
        AnalysisStep::Ask(_) => {},
    }
    Ok(step)
}

/// Records an analysis with its session: score, summary and next step
/// replace what was there, all three together.
pub fn record_analysis(state: &mut AppState, id: SessionId, out: &AnalyzeResponse)
    ensures
        final(state).sessions@ == updated(old(state).sessions@, id, analyzed_as(*out)),
        same_config(*old(state), *final(state)),
        old(state).sessions.wf() ==> final(state).sessions.wf(),
{
    state.sessions.mutate(
        id,
        SessionUpdate::Analyzed {
            intent_score: out.intent_score,
            summary: out.summary.clone(),
            next_step: out.next_step.clone(),
        },
    );
}

/// Takes the second step of analysing a session on demand, with the
/// language model's answer in hand. An analysis that the answer carries is
/// recorded with the session and handed back; an answer that carries none
/// leaves the sessions as they are.
pub fn finish_analysis(state: &mut AppState, id: SessionId, reply: ProviderReply) -> (out: Result<
    AnalyzeResponse,
    CallError,
>)
    ensures
        analysis_reads_as(out, reply),
        out matches Ok(analysis) ==> 0 <= analysis.intent_score <= 100,
        out matches Ok(analysis) ==> final(state).sessions@ == updated(
            old(state).sessions@,
            id,
            analyzed_as(analysis),
        ),
        out is Err ==> final(state).sessions@ == old(state).sessions@,
        same_config(*old(state), *final(state)),
        old(state).sessions.wf() ==> final(state).sessions.wf(),
{
    match read_analysis_reply(reply) {
        Ok(analysis) => {
            record_analysis(state, id, &analysis);
            Ok(analysis)
        },
        Err(e) => Err(e),
    }
}

/// Takes in a raw webhook payload of the provider. A payload that names no
/// call is refused as `UnknownCall`, like a report that belongs to no
/// session. A payload that carries no metadata is matched by its call.
pub fn vapi_webhook(state: &mut AppState, payload: &Value) -> (done: Result<(), CallError>)
    ensures
        match payload_body(*payload) {
            Some(body) => handled(
                old(state).sessions@,
                normalized(body),
                done is Ok,
                final(state).sessions@,
            ) && (carries_no_metadata(body) ==> matched_by_call(
                old(state).sessions@,
                normalized(body),
                done is Ok,
                final(state).sessions@,
            )),
            None => done is Err && final(state).sessions@ == old(state).sessions@,
        },
        done is Err ==> (done matches Err(CallError::UnknownCall)),
        same_config(*old(state), *final(state)),
        old(state).sessions.wf() ==> final(state).sessions.wf(),
{
    match VapiProvider::normalize_payload(payload) {
        Some(ev) => handle_normalized_event(state, ev),
        None => Err(CallError::UnknownCall),
    }
}

/// A session opened under an identifier that was free is found under that
/// identifier and no other, is `Calling`, and holds the prospect exactly as
/// requested. The sessions that were there are untouched.
pub proof fn law_opened_session_resolves(
    before: Sessions,
    id: SessionId,
    created_at: OffsetDateTime,
    req: CallRequestView,
    response: Result<CallResponse, CallError>,
    after: Sessions,
)
    requires
        keyed_by_id(before),
        !before.contains_key(id),
        opened(before, id, created_at, req, response, after),
    ensures
        response is Ok,
        response->Ok_0.session_id == id,
        response->Ok_0.status == CallStatus::Calling,
        after.contains_key(id),
        after[id].id == id,
        after[id].status == CallStatus::Calling,
        after[id].provider_call_id is None,
        after[id].prompt == sdr_prompt(req),
        after[id].name == req.name,
        after[id].company == req.company,
        after[id].phone == req.phone,
        after[id].signal == req.signal,
        after[id].pain_point == req.pain_point,
        after[id].persona == req.persona,
        keyed_by_id(after),
        forall|k: SessionId| after.contains_key(k) && after[k].id == id ==> k == id,
        forall|k: SessionId| before.contains_key(k) ==> after.contains_key(k) && after[k] == before[k],
{
}

} // verus!
