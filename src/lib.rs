//! Typed core of a client for a versioned JSON REST API: response envelopes,
//! the error taxonomy, the credential store, request descriptors and the
//! dispatch state machine that authenticates, sends and refreshes.

pub mod tags;
pub mod ids;
pub mod json;
pub mod envelope;
pub mod credentials;
pub mod descriptor;
pub mod endpoints;
pub mod dispatch;
