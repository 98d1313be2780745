//! What goes out to an outside service and what comes back, as plain values.
//! Sending and receiving is the caller's business.

use vstd::prelude::*;
use serde_json::Value;
use crate::error::CallError;

verus! {

/// A request to post: where to, under which bearer credential, with which
/// JSON body.
#[derive(Debug, Clone)]
pub struct OutboundRequest {
    pub url: String,
    pub bearer_token: String,
    pub body: Value,
}

/// How a posted request fared.
#[derive(Debug, Clone)]
pub enum ProviderReply {
    /// No answer came back.
    Unreachable { reason: String },
    /// The service answered.
    Answered { status: u16, body: String },
}

/// Whether an HTTP status reports success: 200 to 299.
pub open spec fn is_success(status: u16) -> bool {
    200 <= status <= 299
}

/// The body of a reply that reports success; `None` for every other reply.
pub open spec fn accepted_body(reply: ProviderReply) -> Option<Seq<char>> {
    match reply {
        ProviderReply::Answered { status, body } => if is_success(status) {
            Some(body@)
        } else {
            None
        },
        ProviderReply::Unreachable { .. } => None,
    }
}

/// Whether an outcome is the failure that a reply spells, if it spells one.
pub open spec fn fails_as<T>(outcome: Result<T, CallError>, reply: ProviderReply) -> bool {
    match reply {
        ProviderReply::Unreachable { reason } => match outcome {
            Err(CallError::ProviderUnavailable { reason: why }) => why@ == reason@,
            _ => false,
        },
        ProviderReply::Answered { status, body } => match outcome {
            Err(CallError::ProviderRejected { status: code, body: text }) => code == status && text@
                == body@,
            _ => false,
        },
    }
}

/// The body of an answer that reports success. No answer is
/// `ProviderUnavailable`; an answer with any other status is
/// `ProviderRejected`, with the status and the body.
pub fn success_body(reply: ProviderReply) -> (body: Result<String, CallError>)
    ensures
        match accepted_body(reply) {
            Some(text) => body is Ok && body->Ok_0@ == text,
            None => fails_as(body, reply),
        },
{
    match reply {
        ProviderReply::Unreachable { reason } => Err(CallError::ProviderUnavailable { reason }),
        ProviderReply::Answered { status, body } => {
            if 200 <= status && status <= 299 {
                Ok(body)
            } else {
                Err(CallError::ProviderRejected { status, body })
            }
        },
    }
}

} // verus!
