//! Session lifecycle and event correlation for outbound, assistant-driven
//! phone calls.
//!
//! A call request opens a session. The call is placed with a provider, who
//! later reports on it by webhook; each report is brought back to the
//! session it is about. On demand a session's transcript is scored for
//! buying intent.
//!
//! The library decides and records; it sends and receives nothing. Where a
//! step needs the network, it comes in two halves: one that writes the
//! request, and one that reads the reply.
//!
//! - [`models`]: the records, and the changes a session can undergo.
//! - [`store`]: the sessions, each under its identifier, and the state that
//!   request handlers share.
//! - [`voice_provider`]: the provider's requests, replies and webhook
//!   payloads.
//! - [`voice`]: placing a call, and correlating reports with sessions.
//! - [`llm`]: scoring a transcript, by keywords or by asking a language
//!   model.
//! - [`prompt`]: the script for the assistant on the call.
//! - [`routes`]: what each kind of request comes to.
//! - [`config`]: the configuration, from what the environment holds.
//! - [`error`]: what can go wrong.
//! - [`http`], [`json`], [`ident`], [`text`]: requests and replies, JSON
//!   documents, identifiers and text as the other modules need them.
//!
//! What is taken on trust is marked "Trusted:" where it stands: the outside
//! types, and one small function around each outside call.

pub mod config;
pub mod error;
pub mod http;
pub mod ident;
pub mod json;
pub mod llm;
pub mod models;
pub mod prompt;
pub mod routes;
pub mod store;
pub mod text;
pub mod voice;
pub mod voice_provider;
