//! What can go wrong, and how it is told.

use vstd::prelude::*;
use vstd::string::StringExecFns;
use crate::text::{decimal, decimal_text};

verus! {

/// A credential of the calling provider.
#[derive(Clone, Copy, Debug, PartialEq, Eq, Structural)]
pub enum Credential {
    ApiKey,
    PhoneNumberId,
}

/// The ways in which an operation of this library fails.
#[derive(Debug, Clone)]
pub enum CallError {
    /// No session has the identifier.
    NotFound,
    /// A session with the identifier is already stored.
    DuplicateId,
    /// A webhook event belongs to no session.
    UnknownCall,
    /// A credential of the calling provider is not configured.
    MissingCredential { which: Credential },
    /// The outside service could not be reached.
    ProviderUnavailable { reason: String },
    /// The outside service answered with a status that is no success.
    ProviderRejected { status: u16, body: String },
    /// The outside service answered with success, but not with what was
    /// asked of it.
    ProviderResponseMalformed,
}

impl CallError {
    /// The HTTP status that answers a request which failed this way: 404
    /// for a session that is not there, 500 for an identifier that turned
    /// out to be taken, 400 for everything else.
    pub open spec fn status_code(self) -> u16 {
        match self {
            CallError::NotFound => 404,
            CallError::DuplicateId => 500,
            _ => 400,
        }
    }

    /// The failure in words.
    pub open spec fn message_text(self) -> Seq<char> {
        match self {
            CallError::NotFound => "session not found"@,
            CallError::DuplicateId => "session identifier already in use"@,
            CallError::UnknownCall => "unknown provider call id"@,
            CallError::MissingCredential { which: Credential::ApiKey } => "VAPI_API_KEY missing"@,
            CallError::MissingCredential { which: Credential::PhoneNumberId } =>
                "VAPI_PHONE_NUMBER_ID missing"@,
            CallError::ProviderUnavailable { reason } => "provider unreachable: "@ + reason@,
            CallError::ProviderRejected { status, body } => "provider error: "@ + decimal(
                status as nat,
            ) + " "@ + body@,
            CallError::ProviderResponseMalformed => "provider response malformed"@,
        }
    }

    /// The HTTP status that answers a request which failed this way.
    pub fn http_status(&self) -> (code: u16)
        ensures
            code == self.status_code(),
    {
        match self {
            CallError::NotFound => 404,
            CallError::DuplicateId => 500,
            _ => 400,
        }
    }

    /// The failure in words, for a caller or an operator to read.
    pub fn message(&self) -> (text: String)
        ensures
            text@ == self.message_text(),
    {
        match self {
            CallError::NotFound => "session not found".to_owned(),
            CallError::DuplicateId => "session identifier already in use".to_owned(),
            CallError::UnknownCall => "unknown provider call id".to_owned(),
            CallError::MissingCredential { which } => match which {
                Credential::ApiKey => "VAPI_API_KEY missing".to_owned(),
                Credential::PhoneNumberId => "VAPI_PHONE_NUMBER_ID missing".to_owned(),
            },
            CallError::ProviderUnavailable { reason } => {
                let mut text = "provider unreachable: ".to_owned();
                text.append(reason.as_str());
                text
            },
            CallError::ProviderRejected { status, body } => {
                let mut text = "provider error: ".to_owned();
                let code = decimal_text(*status);
                text.append(code.as_str());
                text.append(" ");
                text.append(body.as_str());
                text
            },
            CallError::ProviderResponseMalformed => "provider response malformed".to_owned(),
        }
    }
}

} // verus!
