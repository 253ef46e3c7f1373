//! A typed client for the IBM Watson text-to-speech and speech-to-text services.
//!
//! Every remote operation is described here as plain values: the request that
//! it sends (method, URL, `Authorization` header and body) and the meaning of
//! the status that comes back, for each operation one error type. A transport
//! sends the request and hands the status back; decoding the JSON answers into
//! the records of this crate is left to it as well.
use vstd::prelude::*;

pub mod auth;
pub mod encoding;
pub mod http;
pub mod json;
pub mod status;
pub mod stt;
pub mod tts;

verus! {

} // verus!
