//! The call orchestrator: placing a call for a session, and bringing the
//! provider's reports back to the session they are about.
//!
//! Two choices are made here. A report is applied to a session whatever its
//! status, so a late or repeated report may still change how a finished call
//! is said to have ended, but never reopens it. And a call that could not be
//! placed leaves its session `Failed`, not waiting for ever.

use vstd::prelude::*;
use vstd::string::StringExecFns;
use serde_json::Value;
use crate::error::{CallError, Credential};
use crate::http::{OutboundRequest, ProviderReply};
use crate::ident::{id_text, id_to_text, parse_id, parsed_id};
use crate::json::{
    entries_view, has_no_members, member_of, no_entries, object, object_value, read_text, text, text_field,
    text_value, with_entry,
};
use crate::models::{CallOutcome, Session, SessionId, SessionUpdate, SessionView, UpdateView};
use crate::store::{same_config, updated, AppState, Sessions};
use crate::text::{contains, lowercase_of, occurs_in, to_lowercase};
use crate::voice_provider::{
    call_endpoint, call_payload, reads_as, webhook_url, EventView, NormalizedCallEvent,
    VapiProvider,
};

verus! {

/// What the assistant opens the call with.
pub open spec fn first_message(name: Seq<char>, signal: Seq<char>) -> Seq<char> {
    "Hi "@ + name + ", I’m reaching out because "@ + signal + ". Do you have a quick minute?"@
}

/// The metadata that goes out with a call, for the provider to send back:
/// an object with the session's identifier under `session_id`.
pub open spec fn correlation_metadata(id: SessionId) -> Value {
    object_value(seq![("session_id"@, text_value(id_text(id)))])
}

/// The session that a report's metadata names: the string under
/// `session_id`, read as an identifier. `None` where there is no such string
/// or it is no identifier.
pub open spec fn correlated_id(metadata: Value) -> Option<SessionId> {
    match text_field(metadata, "session_id"@) {
        Some(t) => parsed_id(t),
        None => None,
    }
}

/// Whether a session is the one that the provider knows under `call_id`.
pub open spec fn claims(s: SessionView, call_id: Seq<char>) -> bool {
    s.provider_call_id == Some(call_id)
}

/// How a call ended according to a lowercased status text: completed where
/// it speaks of an end or of completion, else failed where it speaks of
/// failure, else nothing is said.
pub open spec fn reported_outcome(lowered: Seq<char>) -> Option<CallOutcome> {
    if occurs_in("end"@, lowered) || occurs_in("complete"@, lowered) {
        Some(CallOutcome::Completed)
    } else if occurs_in("fail"@, lowered) {
        Some(CallOutcome::Failed)
    } else {
        None
    }
}

/// The change that a report asks for. The status text is read without
/// regard to case.
pub open spec fn report_of(ev: EventView) -> UpdateView {
    UpdateView::Reported {
        outcome: reported_outcome(lowercase_of(ev.status)),
        transcript: ev.transcript,
    }
}

/// The change that the provider's answer to a placed call asks for: the
/// call is recorded under its identifier, or it has failed.
pub open spec fn placed_as(call_id: Result<String, CallError>) -> UpdateView {
    match call_id {
        Ok(id) => UpdateView::CallStarted { provider_call_id: id@ },
        Err(_) => UpdateView::CallFailed,
    }
}

/// Whether `after` and `ok` are what handling a report makes of the
/// sessions `before`.
///
/// A report whose metadata names a session goes to that session and to no
/// other, whichever sessions the provider's call identifier would fit; where
/// the store has no such session, nothing changes and that is no error.
/// Any other report goes to a session that claims its call; where no
/// session does, the report is refused and nothing changes.
pub open spec fn handled(before: Sessions, ev: EventView, ok: bool, after: Sessions) -> bool {
    match correlated_id(ev.metadata) {
        Some(id) => ok && after == updated(before, id, report_of(ev)),
        None => matched_by_call(before, ev, ok, after),
    }
}

/// Whether `after` and `ok` are what matching a report by its call makes of
/// the sessions `before`: the report goes to a session that claims the call,
/// and where no session does, it is refused and nothing changes.
pub open spec fn matched_by_call(before: Sessions, ev: EventView, ok: bool, after: Sessions) -> bool {
    if exists|k: SessionId| #[trigger]
        before.contains_key(k) && claims(before[k], ev.provider_call_id) {
        ok && exists|k: SessionId| #[trigger]
            before.contains_key(k) && claims(before[k], ev.provider_call_id) && after == updated(
                before,
                k,
                report_of(ev),
            )
    } else {
        !ok && after == before
    }
}

/// Writes the metadata that goes out with a session's call. Read back, it
/// names that session.
pub fn build_correlation_metadata(id: SessionId) -> (metadata: Value)
    ensures
        metadata == correlation_metadata(id),
        correlated_id(metadata) == Some(id),
{
    let id_chars = id_to_text(id);
    let entries = with_entry(no_entries(), "session_id", text(id_chars.as_str()));
    let ghost listed = entries_view(entries@);
    let metadata = object(entries);
    proof {
        assert(listed.len() == 1);
        assert(member_of(metadata, listed[0].0) == Some(listed[0].1));
    }
    metadata
}

/// Reads the session that a report's metadata names.
pub fn read_correlated_id(metadata: &Value) -> (id: Option<SessionId>)
    ensures
        id == correlated_id(*metadata),
{
    match read_text(metadata, "session_id") {
        Some(t) => match parse_id(t.as_str()) {
            Ok(id) => Some(id),
            Err(_) => None,
        },
        None => None,
    }
}

/// Reads how a call ended from a status text that is already lowercased.
pub fn outcome_in_lowercased(lowered: &str) -> (outcome: Option<CallOutcome>)
    ensures
        outcome == reported_outcome(lowered@),
{
    if contains(lowered, "end") || contains(lowered, "complete") {
        Some(CallOutcome::Completed)
    } else if contains(lowered, "fail") {
        Some(CallOutcome::Failed)
    } else {
        None
    }
}

/// Reads how a call ended from a provider's status text.
pub fn read_outcome(status: &str) -> (outcome: Option<CallOutcome>)
    ensures
        outcome == reported_outcome(lowercase_of(status@)),
{
    let lowered = to_lowercase(status);
    outcome_in_lowercased(lowered.as_str())
}

/// Whether a session claims a call.
fn session_claims(session: &Session, call_id: &String) -> (hit: bool)
    ensures
        hit == claims(session@, call_id@),
{
    match &session.provider_call_id {
        Some(id) => *id == *call_id,
        None => false,
    }
}

/// The first session of a listing that claims a call.
pub fn find_by_call_id(entries: &Vec<(SessionId, Session)>, call_id: &str) -> (found: Option<
    SessionId,
>)
    ensures
        match found {
            Some(id) => exists|i: int|
                0 <= i < entries@.len() && #[trigger] entries@[i].0 == id && claims(
                    entries@[i].1@,
                    call_id@,
                ) && forall|j: int| 0 <= j < i ==> !claims(#[trigger] entries@[j].1@, call_id@),
            None => forall|i: int|
                0 <= i < entries@.len() ==> !claims(#[trigger] entries@[i].1@, call_id@),
        },
{
    let wanted = call_id.to_owned();
    let mut i: usize = 0;
    while i < entries.len()
        invariant
            i <= entries@.len(),
            wanted@ == call_id@,
            forall|j: int| 0 <= j < i ==> !claims(#[trigger] entries@[j].1@, call_id@),
        decreases entries@.len() - i,
    {
        if session_claims(&entries[i].1, &wanted) {
            return Some(entries[i].0);
        }
        i = i + 1;
    }
    None
}

/// Whether `request` and `after` are what the first step of placing a
/// session's call makes of the sessions `before`, under the credentials that
/// the environment holds.
///
/// Without credentials no call can be placed: the session is left failed
/// and the missing credential is reported, the key before the number. With
/// them the sessions stay as they are: a session that the store does not
/// have is `NotFound`, and for any other the request goes out for its
/// prospect, with the metadata that names it.
pub open spec fn flow_started(
    before: Sessions,
    base_url: Seq<char>,
    api_key: Option<String>,
    phone_number_id: Option<String>,
    id: SessionId,
    request: Result<OutboundRequest, CallError>,
    after: Sessions,
) -> bool {
    match (api_key, phone_number_id) {
        (None, _) => (request matches Err(
            CallError::MissingCredential { which: Credential::ApiKey },
        )) && after == updated(before, id, UpdateView::CallFailed),
        (Some(_), None) => (request matches Err(
            CallError::MissingCredential { which: Credential::PhoneNumberId },
        )) && after == updated(before, id, UpdateView::CallFailed),
        (Some(key), Some(number)) => after == before && if before.contains_key(id) {
            &&& request is Ok
            &&& request->Ok_0.url@ == call_endpoint()
            &&& request->Ok_0.bearer_token@ == key@
            &&& request->Ok_0.body == call_payload(
                number@,
                before[id].phone,
                correlation_metadata(id),
                first_message(before[id].name, before[id].signal),
                before[id].prompt,
                webhook_url(base_url),
            )
        } else {
            request matches Err(CallError::NotFound)
        },
    }
}

/// Whether the metadata that a request carries names a session: echoed in
/// a report, it brings the report to that session.
pub open spec fn names_session(request: OutboundRequest, id: SessionId) -> bool {
    match member_of(request.body, "metadata"@) {
        Some(metadata) => correlated_id(metadata) == Some(id),
        None => false,
    }
}

/// Takes the first step of placing a session's call: the request to send.
/// The first two arguments are what the environment holds under
/// `VAPI_API_KEY` and under `VAPI_PHONE_NUMBER_ID`. The request carries
/// metadata that names the session.
pub fn start_call_flow(
    state: &mut AppState,
    api_key: Option<String>,
    phone_number_id: Option<String>,
    session_id: SessionId,
) -> (request: Result<OutboundRequest, CallError>)
    ensures
        flow_started(
            old(state).sessions@,
            old(state).base_url@,
            api_key,
            phone_number_id,
            session_id,
            request,
            final(state).sessions@,
        ),
        request matches Ok(r) ==> names_session(r, session_id),
        same_config(*old(state), *final(state)),
        old(state).sessions.wf() ==> final(state).sessions.wf(),
{
    let provider = match VapiProvider::from_env(api_key, phone_number_id) {
        Ok(provider) => provider,
        Err(e) => {
            state.sessions.mutate(session_id, SessionUpdate::CallFailed);
            return Err(e);
        },
    };
    let session = match state.sessions.get(session_id) {
        Ok(session) => session,
        Err(e) => {
            return Err(e);
        },
    };
    let mut opening = "Hi ".to_owned();
    opening.append(session.name.as_str());
    opening.append(", I’m reaching out because ");
    opening.append(session.signal.as_str());
    opening.append(". Do you have a quick minute?");
    let metadata = build_correlation_metadata(session_id);
    Ok(
        provider.create_call(
            state.base_url.as_str(),
            session.phone.as_str(),
            opening,
            session.prompt,
            metadata,
        ),
    )
}

/// Takes the second step of placing a session's call, with the provider's
/// answer in hand. A call that was placed is recorded with the session; one
/// that was not leaves the session failed, and the reason is handed back.
pub fn finish_call_flow(state: &mut AppState, session_id: SessionId, reply: ProviderReply) -> (call_id:
    Result<String, CallError>)
    ensures
        reads_as(call_id, reply),
        final(state).sessions@ == updated(old(state).sessions@, session_id, placed_as(call_id)),
        same_config(*old(state), *final(state)),
        old(state).sessions.wf() ==> final(state).sessions.wf(),
{
    let call_id = VapiProvider::read_call_reply(reply);
    let update = match &call_id {
        Ok(id) => SessionUpdate::CallStarted { provider_call_id: id.clone() },
        Err(_) => SessionUpdate::CallFailed,
    };
    state.sessions.mutate(session_id, update);
    call_id
}

/// Brings a provider's report to the session it is about and applies it.
/// The session is the one that the report's metadata names; only a report
/// whose metadata names none is matched by the provider's call identifier,
/// and refused as `UnknownCall` where no session claims that call.
pub fn handle_normalized_event(state: &mut AppState, ev: NormalizedCallEvent) -> (done: Result<
    (),
    CallError,
>)
    ensures
        handled(old(state).sessions@, ev@, done is Ok, final(state).sessions@),
        done is Err ==> (done matches Err(CallError::UnknownCall)),
        same_config(*old(state), *final(state)),
        old(state).sessions.wf() ==> final(state).sessions.wf(),
{
    let target = match read_correlated_id(&ev.metadata) {
        Some(id) => id,
        None => {
            let entries = state.sessions.iterate();
            match find_by_call_id(&entries, ev.provider_call_id.as_str()) {
                Some(id) => id,
                None => {
                    return Err(CallError::UnknownCall);
                },
            }
        },
    };
    let outcome = read_outcome(ev.status.as_str());
    state.sessions.mutate(target, SessionUpdate::Reported { outcome, transcript: ev.transcript });
    Ok(())
}

/// Metadata without members names no session.
pub proof fn law_memberless_metadata_names_nothing(metadata: Value)
    requires
        has_no_members(metadata),
    ensures
        correlated_id(metadata) is None,
{
}

/// A report whose metadata names a session goes to that session, even where
/// another session claims the report's call.
pub proof fn law_metadata_comes_first(
    before: Sessions,
    ev: EventView,
    ok: bool,
    after: Sessions,
    id: SessionId,
)
    requires
        handled(before, ev, ok, after),
        correlated_id(ev.metadata) == Some(id),
    ensures
        ok,
        after == updated(before, id, report_of(ev)),
        forall|other: SessionId| other != id && before.contains_key(other) ==> after.contains_key(
            other,
        ) && after[other] == before[other],
{
}

/// A report whose metadata names no session goes to the one session that
/// claims its call.
pub proof fn law_sole_claimant_is_updated(
    before: Sessions,
    ev: EventView,
    ok: bool,
    after: Sessions,
    id: SessionId,
)
    requires
        handled(before, ev, ok, after),
        correlated_id(ev.metadata) is None,
        before.contains_key(id),
        claims(before[id], ev.provider_call_id),
        forall|other: SessionId|
            before.contains_key(other) && claims(before[other], ev.provider_call_id) ==> other
                == id,
    ensures
        ok,
        after == updated(before, id, report_of(ev)),
{
}

/// A report that names no session and whose call no session claims is
/// refused, and nothing changes.
pub proof fn law_unclaimed_call_is_refused(before: Sessions, ev: EventView, ok: bool, after: Sessions)
    requires
        handled(before, ev, ok, after),
        correlated_id(ev.metadata) is None,
        forall|k: SessionId| before.contains_key(k) ==> !claims(before[k], ev.provider_call_id),
    ensures
        !ok,
        after == before,
{
}

/// Handling the same report twice leaves the sessions as handling it once
/// does, and ends the same way, as long as the report can only go to one
/// session: its metadata names one, or no two sessions claim its call.
pub proof fn law_handling_twice_is_handling_once(
    before: Sessions,
    ev: EventView,
    first_ok: bool,
    between: Sessions,
    second_ok: bool,
    after: Sessions,
)
    requires
        handled(before, ev, first_ok, between),
        handled(between, ev, second_ok, after),
        correlated_id(ev.metadata) is Some || forall|a: SessionId, b: SessionId|
            before.contains_key(a) && claims(before[a], ev.provider_call_id) && before.contains_key(
                b,
            ) && claims(before[b], ev.provider_call_id) ==> a == b,
    ensures
        second_ok == first_ok,
        after == between,
{
    match correlated_id(ev.metadata) {
        Some(id) => {
            law_report_idempotent(before, id, ev);
        },
        None => {
            if exists|k: SessionId| #[trigger]
                before.contains_key(k) && claims(before[k], ev.provider_call_id) {
                let k1 = choose|k: SessionId| #[trigger]
                    before.contains_key(k) && claims(before[k], ev.provider_call_id) && between
                        == updated(before, k, report_of(ev));
                law_report_idempotent(before, k1, ev);
            }
        },
    }
}

/// Applying the same report to the same session a second time changes
/// nothing.
pub proof fn law_report_idempotent(before: Sessions, id: SessionId, ev: EventView)
    ensures
        updated(updated(before, id, report_of(ev)), id, report_of(ev)) == updated(
            before,
            id,
            report_of(ev),
        ),
{
    crate::store::law_mutate_idempotent(before, id, report_of(ev));
}

} // verus!
