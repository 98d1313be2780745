//! The gateway to the calling provider: the request that places a call, the
//! answer to it, and the webhook payloads that report on the call.
//!
//! Nothing outside this module knows how the provider shapes its requests,
//! answers and payloads.

use vstd::prelude::*;
use vstd::string::StringExecFns;
use serde_json::Value;
use crate::error::{CallError, Credential};
use crate::http::{accepted_body, fails_as, success_body, OutboundRequest, ProviderReply};
use crate::json::{
    distinct_keys, doc_field, empty_object, entries_view, has_no_members, member_of, no_entries,
    object, object_value, parse, parsed, read_doc, read_text, text, text_field, text_value,
    with_entry,
};
use crate::models::opt_chars;

verus! {

/// A provider's report on a call, in a shape that no longer depends on the
/// provider.
#[derive(Debug, Clone)]
pub struct NormalizedCallEvent {
    pub provider: String,
    pub provider_call_id: String,
    pub status: String,
    pub transcript: Option<String>,
    pub metadata: Value,
}

/// A normalized event by the characters of its texts.
pub struct EventView {
    pub provider: Seq<char>,
    pub provider_call_id: Seq<char>,
    pub status: Seq<char>,
    pub transcript: Option<Seq<char>>,
    pub metadata: Value,
}

impl View for NormalizedCallEvent {
    type V = EventView;

    open spec fn view(&self) -> EventView {
        EventView {
            provider: self.provider@,
            provider_call_id: self.provider_call_id@,
            status: self.status@,
            transcript: opt_chars(self.transcript),
            metadata: self.metadata,
        }
    }
}

/// The `call` object that a webhook payload may hold.
#[derive(Debug, Clone)]
pub struct VapiCallObject {
    pub transcript: Option<String>,
    pub summary: Option<String>,
    pub metadata: Option<Value>,
}

/// A `call` object by the characters of its texts.
pub struct CallObjectView {
    pub transcript: Option<Seq<char>>,
    pub summary: Option<Seq<char>>,
    pub metadata: Option<Value>,
}

impl View for VapiCallObject {
    type V = CallObjectView;

    open spec fn view(&self) -> CallObjectView {
        CallObjectView {
            transcript: opt_chars(self.transcript),
            summary: opt_chars(self.summary),
            metadata: self.metadata,
        }
    }
}

/// A webhook payload of the provider. Only the call's identifier is sure to
/// be there.
#[derive(Debug, Clone)]
pub struct VapiWebhookBody {
    pub call_id: String,
    pub status: Option<String>,
    pub event: Option<String>,
    pub transcript: Option<String>,
    pub metadata: Option<Value>,
    pub call: Option<VapiCallObject>,
}

/// A webhook payload by the characters of its texts.
pub struct WebhookBodyView {
    pub call_id: Seq<char>,
    pub status: Option<Seq<char>>,
    pub event: Option<Seq<char>>,
    pub transcript: Option<Seq<char>>,
    pub metadata: Option<Value>,
    pub call: Option<CallObjectView>,
}

impl View for VapiWebhookBody {
    type V = WebhookBodyView;

    open spec fn view(&self) -> WebhookBodyView {
        WebhookBodyView {
            call_id: self.call_id@,
            status: opt_chars(self.status),
            event: opt_chars(self.event),
            transcript: opt_chars(self.transcript),
            metadata: self.metadata,
            call: match self.call {
                Some(c) => Some(c@),
                None => None,
            },
        }
    }
}

/// The first of two optional values that is there.
pub open spec fn or_else<T>(first: Option<T>, second: Option<T>) -> Option<T> {
    if first is Some {
        first
    } else {
        second
    }
}

/// The call's identifier in a raw payload. It is looked for under `callId`,
/// then `call_id`, then `id`, and has to be a string.
pub open spec fn payload_call_id(raw: Value) -> Option<Seq<char>> {
    or_else(
        text_field(raw, "callId"@),
        or_else(text_field(raw, "call_id"@), text_field(raw, "id"@)),
    )
}

/// What a `call` object holds, read leniently: a member that is missing or
/// of the wrong kind counts as absent.
pub open spec fn call_object_of(call: Value) -> CallObjectView {
    CallObjectView {
        transcript: text_field(call, "transcript"@),
        summary: text_field(call, "summary"@),
        metadata: doc_field(call, "metadata"@),
    }
}

/// What a raw payload holds, read leniently: `None` where it names no call,
/// and otherwise a body in which every member that is missing or of the
/// wrong kind counts as absent.
pub open spec fn payload_body(raw: Value) -> Option<WebhookBodyView> {
    match payload_call_id(raw) {
        Some(call_id) => Some(
            WebhookBodyView {
                call_id,
                status: text_field(raw, "status"@),
                event: text_field(raw, "event"@),
                transcript: text_field(raw, "transcript"@),
                metadata: doc_field(raw, "metadata"@),
                call: match doc_field(raw, "call"@) {
                    Some(call) => Some(call_object_of(call)),
                    None => None,
                },
            },
        ),
        None => None,
    }
}

/// The status of a normalized event: the payload's explicit status, else
/// its event type, else `unknown`.
pub open spec fn normalized_status(body: WebhookBodyView) -> Seq<char> {
    match or_else(body.status, body.event) {
        Some(s) => s,
        None => "unknown"@,
    }
}

/// The transcript of a normalized event: the payload's own, else the one
/// nested in its `call` object, else that object's summary.
pub open spec fn normalized_transcript(body: WebhookBodyView) -> Option<Seq<char>> {
    match body.call {
        Some(call) => or_else(body.transcript, or_else(call.transcript, call.summary)),
        None => body.transcript,
    }
}

/// The metadata of a normalized event: the payload's own, else the one
/// nested in its `call` object, else an object with no members.
pub open spec fn normalized_metadata(body: WebhookBodyView) -> Value {
    let nested = match body.call {
        Some(call) => call.metadata,
        None => None,
    };
    match or_else(body.metadata, nested) {
        Some(metadata) => metadata,
        None => object_value(Seq::empty()),
    }
}

/// Whether a payload carries no metadata, neither its own nor nested in its
/// `call` object.
pub open spec fn carries_no_metadata(body: WebhookBodyView) -> bool {
    body.metadata is None && (match body.call {
        Some(call) => call.metadata is None,
        None => true,
    })
}

/// The normalized event of a payload.
pub open spec fn normalized(body: WebhookBodyView) -> EventView {
    EventView {
        provider: "vapi"@,
        provider_call_id: body.call_id,
        status: normalized_status(body),
        transcript: normalized_transcript(body),
        metadata: normalized_metadata(body),
    }
}

/// Where a call is placed.
pub open spec fn call_endpoint() -> Seq<char> {
    "https://api.vapi.ai/call"@
}

/// Where the provider is to deliver its webhooks, for a service that is
/// reached under `base_url`.
pub open spec fn webhook_url(base_url: Seq<char>) -> Seq<char> {
    base_url + "/webhook/vapi"@
}

/// The language model that the assistant on the call runs on.
pub open spec fn assistant_model() -> Value {
    object_value(
        seq![("provider"@, text_value("openai"@)), ("model"@, text_value("gpt-4o-mini"@))],
    )
}

/// The voice that the assistant on the call speaks with.
pub open spec fn assistant_voice() -> Value {
    object_value(seq![("provider"@, text_value("11labs"@)), ("voiceId"@, text_value("Zayd"@))])
}

/// The assistant that the provider is to run on the call.
pub open spec fn assistant(first_message: Seq<char>, system_prompt: Seq<char>) -> Value {
    object_value(
        seq![
            ("firstMessage"@, text_value(first_message)),
            ("systemPrompt"@, text_value(system_prompt)),
            ("model"@, assistant_model()),
            ("voice"@, assistant_voice()),
        ],
    )
}

/// The body of the request that places a call. The metadata goes out as it
/// is, for the provider to send back with its webhooks.
pub open spec fn call_payload(
    phone_number_id: Seq<char>,
    to_phone: Seq<char>,
    metadata: Value,
    first_message: Seq<char>,
    system_prompt: Seq<char>,
    webhook_url: Seq<char>,
) -> Value {
    object_value(
        seq![
            ("phoneNumberId"@, text_value(phone_number_id)),
            ("customer"@, object_value(seq![("number"@, text_value(to_phone))])),
            ("metadata"@, metadata),
            ("assistant"@, assistant(first_message, system_prompt)),
            ("webhookUrl"@, text_value(webhook_url)),
        ],
    )
}

/// The call's identifier in the body of an answer to a placed call: the
/// string under `id` of the JSON object that the body is.
pub open spec fn reply_call_id(body: Seq<char>) -> Option<Seq<char>> {
    match parsed(body) {
        Some(doc) => text_field(doc, "id"@),
        None => None,
    }
}

/// Whether an outcome is what a reply to a placed call comes to: the call's
/// identifier, or the failure that the reply spells, or
/// `ProviderResponseMalformed` for a success that names no call.
pub open spec fn reads_as(call_id: Result<String, CallError>, reply: ProviderReply) -> bool {
    match accepted_body(reply) {
        None => fails_as(call_id, reply),
        Some(body) => match reply_call_id(body) {
            Some(id) => call_id is Ok && call_id->Ok_0@ == id,
            None => call_id matches Err(CallError::ProviderResponseMalformed),
        },
    }
}

/// The calling provider, with the credentials it is used under.
#[derive(Clone)]
pub struct VapiProvider {
    api_key: String,
    phone_number_id: String,
}

impl VapiProvider {
    /// The key that requests are sent under.
    pub closed spec fn api_key(&self) -> Seq<char> {
        self.api_key@
    }

    /// The provider's identifier of the number that calls are placed from.
    pub closed spec fn phone_number_id(&self) -> Seq<char> {
        self.phone_number_id@
    }

    /// The provider as the environment configures it. The arguments are what
    /// the environment holds under `VAPI_API_KEY` and under
    /// `VAPI_PHONE_NUMBER_ID`. A missing key is reported before a missing
    /// number.
    pub fn from_env(api_key: Option<String>, phone_number_id: Option<String>) -> (provider: Result<
        VapiProvider,
        CallError,
    >)
        ensures
            match (api_key, phone_number_id) {
                (None, _) => provider matches Err(
                    CallError::MissingCredential { which: Credential::ApiKey },
                ),
                (Some(_), None) => provider matches Err(
                    CallError::MissingCredential { which: Credential::PhoneNumberId },
                ),
                (Some(key), Some(number)) => provider is Ok && provider->Ok_0.api_key() == key@
                    && provider->Ok_0.phone_number_id() == number@,
            },
    {
        match api_key {
            None => Err(CallError::MissingCredential { which: Credential::ApiKey }),
            Some(api_key) => match phone_number_id {
                None => Err(CallError::MissingCredential { which: Credential::PhoneNumberId }),
                Some(phone_number_id) => Ok(VapiProvider { api_key, phone_number_id }),
            },
        }
    }

    /// The request that places a call to `to_phone`. It goes to the
    /// provider's call endpoint under this provider's key, asks for
    /// webhooks at this service's address, and holds the metadata as it was
    /// given, under `metadata`.
    pub fn create_call(
        &self,
        base_url: &str,
        to_phone: &str,
        first_message: String,
        system_prompt: String,
        metadata: Value,
    ) -> (request: OutboundRequest)
        ensures
            request.url@ == call_endpoint(),
            request.bearer_token@ == self.api_key(),
            request.body == call_payload(
                self.phone_number_id(),
                to_phone@,
                metadata,
                first_message@,
                system_prompt@,
                webhook_url(base_url@),
            ),
            member_of(request.body, "metadata"@) == Some(metadata),
    {
        let mut url = base_url.to_owned();
        url.append("/webhook/vapi");

        let model = no_entries();
        let model = with_entry(model, "provider", text("openai"));
        let model = with_entry(model, "model", text("gpt-4o-mini"));

        let voice = no_entries();
        let voice = with_entry(voice, "provider", text("11labs"));
        let voice = with_entry(voice, "voiceId", text("Zayd"));
        assert(entries_view(model@) =~= seq![
            ("provider"@, text_value("openai"@)),
            ("model"@, text_value("gpt-4o-mini"@)),
        ]);
        assert(entries_view(voice@) =~= seq![
            ("provider"@, text_value("11labs"@)),
            ("voiceId"@, text_value("Zayd"@)),
        ]);

        let agent = no_entries();
        let agent = with_entry(agent, "firstMessage", text(first_message.as_str()));
        let agent = with_entry(agent, "systemPrompt", text(system_prompt.as_str()));
        let agent = with_entry(agent, "model", object(model));
        let agent = with_entry(agent, "voice", object(voice));
        assert(entries_view(agent@) =~= seq![
            ("firstMessage"@, text_value(first_message@)),
            ("systemPrompt"@, text_value(system_prompt@)),
            ("model"@, assistant_model()),
            ("voice"@, assistant_voice()),
        ]);

        let customer = no_entries();
        let customer = with_entry(customer, "number", text(to_phone));

        let payload = no_entries();
        let payload = with_entry(payload, "phoneNumberId", text(self.phone_number_id.as_str()));
        let payload = with_entry(payload, "customer", object(customer));
        let payload = with_entry(payload, "metadata", metadata);
        let payload = with_entry(payload, "assistant", object(agent));
        let payload = with_entry(payload, "webhookUrl", text(url.as_str()));
        assert(entries_view(payload@) =~= seq![
            ("phoneNumberId"@, text_value(self.phone_number_id())),
            ("customer"@, object_value(seq![("number"@, text_value(to_phone@))])),
            ("metadata"@, metadata),
            ("assistant"@, assistant(first_message@, system_prompt@)),
            ("webhookUrl"@, text_value(webhook_url(base_url@))),
        ]);

        let ghost listed = entries_view(payload@);
        let body = object(payload);
        proof {
            reveal_strlit("phoneNumberId");
            reveal_strlit("customer");
            reveal_strlit("metadata");
            reveal_strlit("assistant");
            reveal_strlit("webhookUrl");
            assert(listed.len() == 5);
            assert(listed[0].0.len() == 13);
            assert(listed[1].0.len() == 8 && listed[1].0[0] == 'c');
            assert(listed[2].0.len() == 8 && listed[2].0[0] == 'm');
            assert(listed[3].0.len() == 9);
            assert(listed[4].0.len() == 10);
            assert(distinct_keys(listed));
            assert(member_of(body, listed[2].0) == Some(listed[2].1));
        }
        OutboundRequest {
            url: "https://api.vapi.ai/call".to_owned(),
            bearer_token: self.api_key.clone(),
            body,
        }
    }

    /// The call's identifier in a JSON document that answers a placed call.
    pub fn call_id_of(doc: &Value) -> (call_id: Option<String>)
        ensures
            opt_chars(call_id) == text_field(*doc, "id"@),
    {
        read_text(doc, "id")
    }

    /// What the provider's answer to a placed call comes to: the call's
    /// identifier, or why there is none. No answer is `ProviderUnavailable`;
    /// an answer that reports no success is `ProviderRejected`; a success
    /// whose body is no JSON object with a string under `id` is
    /// `ProviderResponseMalformed`.
    pub fn read_call_reply(reply: ProviderReply) -> (call_id: Result<String, CallError>)
        ensures
            reads_as(call_id, reply),
    {
        let body = match success_body(reply) {
            Ok(body) => body,
            Err(e) => {
                return Err(e);
            },
        };
        match parse(body.as_str()) {
            Ok(doc) => match Self::call_id_of(&doc) {
                Some(id) => Ok(id),
                None => Err(CallError::ProviderResponseMalformed),
            },
            Err(_) => Err(CallError::ProviderResponseMalformed),
        }
    }

    /// Reads a raw webhook payload. A payload that names no call cannot be
    /// read; in any other payload, whatever is missing or malformed counts
    /// as absent.
    pub fn read_payload(raw: &Value) -> (body: Option<VapiWebhookBody>)
        ensures
            match payload_body(*raw) {
                Some(expected) => body is Some && body->0@ == expected,
                None => body is None,
            },
    {
        let call_id = match read_text(raw, "callId") {
            Some(id) => Some(id),
            None => match read_text(raw, "call_id") {
                Some(id) => Some(id),
                None => read_text(raw, "id"),
            },
        };
        match call_id {
            None => None,
            Some(call_id) => {
                let call = match read_doc(raw, "call") {
                    Some(call) => Some(
                        VapiCallObject {
                            transcript: read_text(&call, "transcript"),
                            summary: read_text(&call, "summary"),
                            metadata: read_doc(&call, "metadata"),
                        },
                    ),
                    None => None,
                };
                Some(
                    VapiWebhookBody {
                        call_id,
                        status: read_text(raw, "status"),
                        event: read_text(raw, "event"),
                        transcript: read_text(raw, "transcript"),
                        metadata: read_doc(raw, "metadata"),
                        call,
                    },
                )
            },
        }
    }

    /// Turns a webhook payload into a normalized event. This never fails:
    /// what the payload lacks is filled in. The metadata filled in for a
    /// payload that carries none has no members, so it names no session.
    pub fn normalize_webhook(body: VapiWebhookBody) -> (event: NormalizedCallEvent)
        ensures
            event@ == normalized(body@),
            carries_no_metadata(body@) ==> has_no_members(event.metadata),
    {
        let VapiWebhookBody { call_id, status, event, transcript, metadata, call } = body;
        let status = match status {
            Some(s) => s,
            None => match event {
                Some(e) => e,
                None => "unknown".to_owned(),
            },
        };
        let (nested_transcript, nested_summary, nested_metadata) = match call {
            Some(c) => (c.transcript, c.summary, c.metadata),
            None => (None, None, None),
        };
        let transcript = match transcript {
            Some(t) => Some(t),
            None => match nested_transcript {
                Some(t) => Some(t),
                None => nested_summary,
            },
        };
        let metadata = match metadata {
            Some(m) => m,
            None => match nested_metadata {
                Some(m) => m,
                None => empty_object(),
            },
        };
        NormalizedCallEvent {
            provider: "vapi".to_owned(),
            provider_call_id: call_id,
            status,
            transcript,
            metadata,
        }
    }

    /// Turns a raw webhook payload into a normalized event, provided it
    /// names a call.
    pub fn normalize_payload(raw: &Value) -> (event: Option<NormalizedCallEvent>)
        ensures
            match payload_body(*raw) {
                Some(body) => event is Some && event->0@ == normalized(body) && (
                carries_no_metadata(body) ==> has_no_members(event->0.metadata)),
                None => event is None,
            },
    {
        match Self::read_payload(raw) {
            Some(body) => Some(Self::normalize_webhook(body)),
            None => None,
        }
    }
}

/// A payload that names a call is normalized, whatever else it holds or
/// lacks, and the event is about that call.
pub proof fn law_named_call_normalizes(raw: Value)
    requires
        payload_call_id(raw) is Some,
    ensures
        payload_body(raw) is Some,
        normalized(payload_body(raw)->0).provider_call_id == payload_call_id(raw)->0,
{
}

} // verus!
