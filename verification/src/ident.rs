//! Session identifiers as UUIDs: making one, writing one out, reading one.

use vstd::prelude::*;
use uuid::Uuid;
use crate::models::SessionId;

verus! {

/// Trusted: `uuid::Error`, why a text is no UUID. The verifier sees nothing
/// inside it.
#[verifier::external_type_specification]
#[verifier::external_body]
pub struct ExUuidError(uuid::Error);

/// The identifier that a text denotes as a UUID; `None` where the text is no
/// UUID. What `Uuid::parse_str` returns.
pub uninterp spec fn parsed_id(text: Seq<char>) -> Option<u128>;

/// The text of an identifier: its UUID in the hyphenated form, as the UUID's
/// `Display` writes it.
pub uninterp spec fn id_text(id: u128) -> Seq<char>;

/// Trusted: `Uuid::new_v4`, a random UUID, by its 128-bit value. Nothing is
/// said of the value. The call panics where the system yields no random
/// bytes.
#[verifier::external_body]
pub(crate) fn fresh_id() -> (id: SessionId) {
    Uuid::new_v4().as_u128()
}

/// Trusted: `Uuid::parse_str`, with the UUID handed on by its 128-bit value.
/// It succeeds exactly on the texts that are a UUID; the outcome is
/// `parsed_id`.
#[verifier::external_body]
pub(crate) fn parse_id(text: &str) -> (id: Result<SessionId, uuid::Error>)
    ensures
        id matches Ok(v) ==> parsed_id(text@) == Some(v),
        id is Err ==> parsed_id(text@) is None,
{
    match Uuid::parse_str(text) {
        Ok(uuid) => Ok(uuid.as_u128()),
        Err(e) => Err(e),
    }
}

/// Trusted: `to_string` of the UUID with the given 128-bit value. The text is
/// `id_text`, and `Uuid::parse_str` reads every text so written back to the
/// same UUID.
#[verifier::external_body]
pub(crate) fn id_to_text(id: SessionId) -> (text: String)
    ensures
        text@ == id_text(id),
        parsed_id(text@) == Some(id),
{
    Uuid::from_u128(id).to_string()
}

} // verus!
