//! The records that the call lifecycle works on, and their mathematical views.

use vstd::prelude::*;
use time::OffsetDateTime;
use crate::voice_provider::NormalizedCallEvent;

verus! {

/// Trusted: `time::OffsetDateTime`, a moment in time. The verifier sees
/// nothing inside it; a session carries its creation time along unread.
#[verifier::external_type_specification]
#[verifier::external_body]
pub struct ExOffsetDateTime(time::OffsetDateTime);

/// Trusted: `OffsetDateTime::now_utc`, the current time. Nothing is said of
/// it.
pub assume_specification[ OffsetDateTime::now_utc ]() -> OffsetDateTime
;

/// Identifies one session. It is the 128-bit value of the session's UUID.
pub type SessionId = u128;

/// An optional text by its characters.
pub open spec fn opt_chars(text: Option<String>) -> Option<Seq<char>> {
    match text {
        Some(s) => Some(s@),
        None => None,
    }
}

/// Copies an optional text.
pub fn copy_opt_text(text: &Option<String>) -> (copy: Option<String>)
    ensures
        copy == *text,
{
    match text {
        Some(s) => Some(s.clone()),
        None => None,
    }
}

/// What a caller asks for: whom to call, and why.
#[derive(Debug, Clone)]
pub struct CallRequest {
    pub name: String,
    pub company: String,
    pub phone: String,
    /// Why the call is being made.
    pub signal: String,
    pub pain_point: Option<String>,
    pub persona: Option<String>,
}

/// A call request by the characters of its fields.
pub struct CallRequestView {
    pub name: Seq<char>,
    pub company: Seq<char>,
    pub phone: Seq<char>,
    pub signal: Seq<char>,
    pub pain_point: Option<Seq<char>>,
    pub persona: Option<Seq<char>>,
}

impl View for CallRequest {
    type V = CallRequestView;

    open spec fn view(&self) -> CallRequestView {
        CallRequestView {
            name: self.name@,
            company: self.company@,
            phone: self.phone@,
            signal: self.signal@,
            pain_point: opt_chars(self.pain_point),
            persona: opt_chars(self.persona),
        }
    }
}

/// Where a call stands in its lifecycle.
#[derive(Clone, Copy, Debug, PartialEq, Eq, Structural)]
pub enum CallStatus {
    NotStarted,
    Calling,
    Completed,
    Failed,
}

impl CallStatus {
    /// How far along the lifecycle a status is: 0 before the call, 1 while it
    /// runs, 2 once it is over.
    pub open spec fn rank(self) -> nat {
        match self {
            CallStatus::NotStarted => 0,
            CallStatus::Calling => 1,
            CallStatus::Completed => 2,
            CallStatus::Failed => 2,
        }
    }

    /// Whether the call is over.
    pub fn is_terminal(self) -> (over: bool)
        ensures
            over == (self.rank() == 2),
    {
        match self {
            CallStatus::Completed => true,
            CallStatus::Failed => true,
            _ => false,
        }
    }
}

/// How a call ended, as far as a provider's report tells.
#[derive(Clone, Copy, Debug, PartialEq, Eq, Structural)]
pub enum CallOutcome {
    Completed,
    Failed,
}

impl CallOutcome {
    /// The status that a session takes on this outcome.
    pub open spec fn status(self) -> CallStatus {
        match self {
            CallOutcome::Completed => CallStatus::Completed,
            CallOutcome::Failed => CallStatus::Failed,
        }
    }

    /// The status that a session takes on this outcome.
    pub fn to_status(self) -> (status: CallStatus)
        ensures
            status == self.status(),
    {
        match self {
            CallOutcome::Completed => CallStatus::Completed,
            CallOutcome::Failed => CallStatus::Failed,
        }
    }
}

/// The answer to a call request.
#[derive(Debug, Clone)]
pub struct CallResponse {
    pub session_id: SessionId,
    pub status: CallStatus,
    pub message: String,
}

/// The state of a call as a provider-neutral webhook names it.
#[allow(non_camel_case_types)]
#[derive(Clone, Copy, Debug, PartialEq, Eq, Structural)]
pub enum WebhookStatus {
    COMPLETED,
    FAILED,
    PENDING,
}

/// A provider-neutral webhook event with a closed set of states.
#[derive(Debug, Clone)]
pub struct VoiceWebhookEvent {
    pub provider_call_id: String,
    pub status: WebhookStatus,
    pub transcript: Option<String>,
}

/// A normalized event together with the name of the provider that sent it.
#[derive(Debug, Clone)]
pub struct VoiceProviderWebhook {
    pub provider: String,
    pub event: NormalizedCallEvent,
}

/// A score brought into the range of an intent score, 0 to 100: a number
/// below the range counts as 0, one above it as 100.
pub open spec fn clamped_score(n: int) -> int {
    if n < 0 {
        0
    } else if n > 100 {
        100
    } else {
        n
    }
}

/// Brings a score into the range of an intent score.
pub fn clamp_score(n: i64) -> (score: i32)
    ensures
        score == clamped_score(n as int),
        0 <= score <= 100,
{
    if n < 0 {
        0
    } else if n > 100 {
        100
    } else {
        n as i32
    }
}

/// What an analysis of a transcript yields. The score lies between 0 and
/// 100 wherever this library made the analysis.
#[derive(Debug, Clone)]
pub struct AnalyzeResponse {
    pub intent_score: i32,
    pub summary: String,
    pub next_step: String,
}

/// An analysis by the characters of its texts.
pub struct AnalysisView {
    pub intent_score: i32,
    pub summary: Seq<char>,
    pub next_step: Seq<char>,
}

impl View for AnalyzeResponse {
    type V = AnalysisView;

    open spec fn view(&self) -> AnalysisView {
        AnalysisView {
            intent_score: self.intent_score,
            summary: self.summary@,
            next_step: self.next_step@,
        }
    }
}

/// One tracked call attempt and what has been learned of it.
#[derive(Debug)]
pub struct Session {
    pub id: SessionId,
    pub created_at: OffsetDateTime,
    pub name: String,
    pub company: String,
    pub phone: String,
    pub signal: String,
    pub pain_point: Option<String>,
    pub persona: Option<String>,
    pub status: CallStatus,
    pub provider_call_id: Option<String>,
    pub prompt: String,
    pub transcript: Option<String>,
    pub intent_score: Option<i32>,
    pub summary: Option<String>,
    pub next_step: Option<String>,
}

/// A session by the characters of its texts.
pub struct SessionView {
    pub id: SessionId,
    pub created_at: OffsetDateTime,
    pub name: Seq<char>,
    pub company: Seq<char>,
    pub phone: Seq<char>,
    pub signal: Seq<char>,
    pub pain_point: Option<Seq<char>>,
    pub persona: Option<Seq<char>>,
    pub status: CallStatus,
    pub provider_call_id: Option<Seq<char>>,
    pub prompt: Seq<char>,
    pub transcript: Option<Seq<char>>,
    pub intent_score: Option<i32>,
    pub summary: Option<Seq<char>>,
    pub next_step: Option<Seq<char>>,
}

impl View for Session {
    type V = SessionView;

    open spec fn view(&self) -> SessionView {
        SessionView {
            id: self.id,
            created_at: self.created_at,
            name: self.name@,
            company: self.company@,
            phone: self.phone@,
            signal: self.signal@,
            pain_point: opt_chars(self.pain_point),
            persona: opt_chars(self.persona),
            status: self.status,
            provider_call_id: opt_chars(self.provider_call_id),
            prompt: self.prompt@,
            transcript: opt_chars(self.transcript),
            intent_score: self.intent_score,
            summary: opt_chars(self.summary),
            next_step: opt_chars(self.next_step),
        }
    }
}

impl Clone for Session {
    fn clone(&self) -> (copy: Self)
        ensures
            copy == *self,
    {
        Session {
            id: self.id,
            created_at: self.created_at,
            name: self.name.clone(),
            company: self.company.clone(),
            phone: self.phone.clone(),
            signal: self.signal.clone(),
            pain_point: copy_opt_text(&self.pain_point),
            persona: copy_opt_text(&self.persona),
            status: self.status,
            provider_call_id: copy_opt_text(&self.provider_call_id),
            prompt: self.prompt.clone(),
            transcript: copy_opt_text(&self.transcript),
            intent_score: self.intent_score,
            summary: copy_opt_text(&self.summary),
            next_step: copy_opt_text(&self.next_step),
        }
    }
}

/// One change to a session. These are all the changes there are: whatever
/// happens to a stored session is one of them.
#[derive(Debug, Clone)]
pub enum SessionUpdate {
    /// The request for the call was accepted: as far as the caller is told,
    /// the call is under way.
    Accepted,
    /// The provider confirmed the call and gave it an identifier.
    CallStarted { provider_call_id: String },
    /// The call could not be placed.
    CallFailed,
    /// The provider reported on the call: how it ended, if the report says
    /// so, and what was said, if the report carries it.
    Reported { outcome: Option<CallOutcome>, transcript: Option<String> },
    /// The transcript was analysed.
    Analyzed { intent_score: i32, summary: String, next_step: String },
}

/// A change to a session by the characters of its texts.
pub enum UpdateView {
    Accepted,
    CallStarted { provider_call_id: Seq<char> },
    CallFailed,
    Reported { outcome: Option<CallOutcome>, transcript: Option<Seq<char>> },
    Analyzed { intent_score: i32, summary: Seq<char>, next_step: Seq<char> },
}

impl View for SessionUpdate {
    type V = UpdateView;

    open spec fn view(&self) -> UpdateView {
        match *self {
            SessionUpdate::Accepted => UpdateView::Accepted,
            SessionUpdate::CallStarted { provider_call_id } => UpdateView::CallStarted {
                provider_call_id: provider_call_id@,
            },
            SessionUpdate::CallFailed => UpdateView::CallFailed,
            SessionUpdate::Reported { outcome, transcript } => UpdateView::Reported {
                outcome,
                transcript: opt_chars(transcript),
            },
            SessionUpdate::Analyzed { intent_score, summary, next_step } => UpdateView::Analyzed {
                intent_score,
                summary: summary@,
                next_step: next_step@,
            },
        }
    }
}

/// The status after word that the call was placed or could not be: a call
/// that is over stays as it ended, any other takes the new status.
pub open spec fn advance(current: CallStatus, next: CallStatus) -> CallStatus {
    if current.rank() == 2 {
        current
    } else {
        next
    }
}

/// The session that a change makes of a session.
///
/// - An accepted request moves a call that is not over to `Calling`.
/// - A confirmed call records the provider's identifier unless one is
///   recorded already, and moves a call that is not over to `Calling`.
/// - A call that could not be placed moves to `Failed` unless it is over.
/// - A report sets the status to the outcome it names, whatever the status
///   was, and replaces the transcript with the one it carries; a report that
///   is silent on either leaves it alone.
/// - An analysis replaces score, summary and next step together, with the
///   score brought into the range 0 to 100.
pub open spec fn apply_update(s: SessionView, u: UpdateView) -> SessionView {
    match u {
        UpdateView::Accepted => SessionView {
            status: advance(s.status, CallStatus::Calling),
            ..s
        },
        UpdateView::CallStarted { provider_call_id } => SessionView {
            provider_call_id: if s.provider_call_id is Some {
                s.provider_call_id
            } else {
                Some(provider_call_id)
            },
            status: advance(s.status, CallStatus::Calling),
            ..s
        },
        UpdateView::CallFailed => SessionView {
            status: advance(s.status, CallStatus::Failed),
            ..s
        },
        UpdateView::Reported { outcome, transcript } => SessionView {
            status: match outcome {
                Some(o) => o.status(),
                None => s.status,
            },
            transcript: if transcript is Some {
                transcript
            } else {
                s.transcript
            },
            ..s
        },
        UpdateView::Analyzed { intent_score, summary, next_step } => SessionView {
            intent_score: Some(clamped_score(intent_score as int) as i32),
            summary: Some(summary),
            next_step: Some(next_step),
            ..s
        },
    }
}

impl Session {
    /// Makes the change to the session.
    pub fn apply(self, update: SessionUpdate) -> (next: Session)
        ensures
            next@ == apply_update(self@, update@),
    {
        let mut next = self;
        match update {
            SessionUpdate::Accepted => {
                if !next.status.is_terminal() {
                    next.status = CallStatus::Calling;
                }
            },
            SessionUpdate::CallStarted { provider_call_id } => {
                if next.provider_call_id.is_none() {
                    next.provider_call_id = Some(provider_call_id);
                }
                if !next.status.is_terminal() {
                    next.status = CallStatus::Calling;
                }
            },
            SessionUpdate::CallFailed => {
                if !next.status.is_terminal() {
                    next.status = CallStatus::Failed;
                }
            },
            SessionUpdate::Reported { outcome, transcript } => {
                match outcome {
                    Some(o) => {
                        next.status = o.to_status();
                    },
                    None => {},
                }
                if transcript.is_some() {
                    next.transcript = transcript;
                }
            },
            SessionUpdate::Analyzed { intent_score, summary, next_step } => {
                next.intent_score = Some(clamp_score(intent_score as i64));
                next.summary = Some(summary);
                next.next_step = Some(next_step);
            },
        }
        next
    }
}

/// No change touches what a session was created with: its identifier, its
/// creation time, the prospect and the prompt.
pub proof fn law_update_keeps_origin(s: SessionView, u: UpdateView)
    ensures
        apply_update(s, u).id == s.id,
        apply_update(s, u).created_at == s.created_at,
        apply_update(s, u).name == s.name,
        apply_update(s, u).company == s.company,
        apply_update(s, u).phone == s.phone,
        apply_update(s, u).signal == s.signal,
        apply_update(s, u).pain_point == s.pain_point,
        apply_update(s, u).persona == s.persona,
        apply_update(s, u).prompt == s.prompt,
{
}

/// The provider's call identifier is recorded once: no change replaces or
/// clears one that is there.
pub proof fn law_call_id_set_once(s: SessionView, u: UpdateView)
    requires
        s.provider_call_id is Some,
    ensures
        apply_update(s, u).provider_call_id == s.provider_call_id,
{
}

/// No change moves a session backwards in its lifecycle. A call that is over
/// stays over, though a later report may still say how it ended.
pub proof fn law_status_never_regresses(s: SessionView, u: UpdateView)
    ensures
        apply_update(s, u).status.rank() >= s.status.rank(),
{
}

/// Making the same change twice leaves a session as making it once does.
pub proof fn law_update_idempotent(s: SessionView, u: UpdateView)
    ensures
        apply_update(apply_update(s, u), u) == apply_update(s, u),
{
}

/// A score stays between 0 and 100: no change records one outside that
/// range, and none moves one that is inside it out of it.
pub proof fn law_score_stays_in_range(s: SessionView, u: UpdateView)
    requires
        s.intent_score matches Some(n) ==> 0 <= n <= 100,
    ensures
        apply_update(s, u).intent_score matches Some(n) ==> 0 <= n <= 100,
{
}

/// Score, summary and next step are there together or not at all, as long
/// as changes are all that touches them.
pub proof fn law_analysis_kept_together(s: SessionView, u: UpdateView)
    requires
        s.intent_score is Some <==> s.summary is Some,
        s.summary is Some <==> s.next_step is Some,
    ensures
        apply_update(s, u).intent_score is Some <==> apply_update(s, u).summary is Some,
        apply_update(s, u).summary is Some <==> apply_update(s, u).next_step is Some,
{
}

/// What a caller is shown of a session.
#[derive(Debug, Clone)]
pub struct UiSessionView {
    pub session_id: SessionId,
    pub status: CallStatus,
    pub intent_score: Option<i32>,
    pub transcript: Option<String>,
    pub summary: Option<String>,
    pub next_step: Option<String>,
}

} // verus!
