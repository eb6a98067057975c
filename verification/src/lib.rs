//! A TLS-only SMTP provider of email dispatch.
//!
//! A dispatch carries one rendered message for one recipient. The provider checks it, claims an
//! effect fence in PostgreSQL, submits the message to a relay, and records what became of it, so
//! that an ambiguous submission is never repeated. What the provider decides stands here;
//! connections, transactions and submissions belong to the driver that asks it.
//!
//! - `config`: the configuration and its rules
//! - `transport`: the checks on a request, its identities and its message
//! - `relay`: the connection to the relay
//! - `response`: portable responses, and what the relay's behaviour is classified as
//! - `storage`: the fence, one database operation at a time
//! - `dispatch`: a dispatch, one operation at a time
//! - `effects`: the table of effects as a mathematical object, and what holds of it
//! - `schema`: the schema that the table lives in
//! - `digest`, `text`: digests and texts
//! - `email`, `failure`: the values that callers and the kernel see
use vstd::prelude::*;

pub mod config;
pub mod digest;
pub mod dispatch;
pub mod effects;
pub mod email;
pub mod failure;
pub mod relay;
pub mod response;
pub mod schema;
pub mod storage;
pub mod text;
pub mod transport;

pub use config::SmtpConfig;

verus! {

} // verus!
