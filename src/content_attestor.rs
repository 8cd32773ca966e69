//! The content-attestation endpoint: hash the submitted content and return
//! the identifier sealed under the process-data scope.

use crate::digest::{content_hash, content_id, is_lower_hex};
use crate::envelope::{
    signature_valid, to_signed_response, CanonicalPayload, IntentMessage, IntentScope,
    ProcessDataRequest, ProcessedDataResponse,
};
use crate::wire::{push_bytes, push_uleb128, uleb128};
use fastcrypto::ed25519::Ed25519KeyPair;
use std::time::{Duration, SystemTime, SystemTimeError};
use vstd::prelude::*;
use vstd::utf8::encode_utf8;

verus! {

#[verifier::external_type_specification]
#[verifier::external_body]
pub struct ExSystemTime(SystemTime);

#[verifier::external_type_specification]
#[verifier::external_body]
pub struct ExSystemTimeError(SystemTimeError);

/// Relies on std's `SystemTime::now`; nothing is known of the time it reads.
pub assume_specification[ SystemTime::now ]() -> SystemTime;

/// Relies on std's `Duration::as_millis`: the whole milliseconds of the span.
pub assume_specification[ Duration::as_millis ](d: &Duration) -> u128;

/// Relies on std's `SystemTime::duration_since`, taken from `UNIX_EPOCH`: the
/// span since the epoch, or an error for a time before it.
#[verifier::external_body]
fn since_unix_epoch(t: &SystemTime) -> Result<Duration, SystemTimeError> {
    t.duration_since(std::time::UNIX_EPOCH)
}

/// Content submitted by a caller.
#[derive(Debug)]
pub struct ContentRequest {
    pub content: String,
}

/// The identifier of the submitted content.
#[derive(Debug, Clone)]
pub struct ContentResponse {
    pub content_hash: String,
}

impl CanonicalPayload for ContentResponse {
    /// The UTF-8 bytes of the identifier, after their count in unsigned LEB128.
    open spec fn canonical_bytes(&self) -> Seq<u8> {
        uleb128(encode_utf8(self.content_hash@).len()) + encode_utf8(self.content_hash@)
    }

    fn encode_into(&self, out: &mut Vec<u8>) {
        let bytes = self.content_hash.as_str().as_bytes();
        let ghost start = out@;
        push_uleb128(out, bytes.len());
        push_bytes(out, bytes);
        assert(out@ =~= start + self.canonical_bytes());
    }
}

/// Why a request produced no envelope.
#[derive(Clone, Copy, Debug, PartialEq, Eq, Structural)]
pub enum EnclaveError {
    /// The wall clock reads a time before the Unix epoch.
    ClockError,
}

/// What every handler shares: the process's signing key, fixed at start-up,
/// and the credential of the API it calls.
pub struct AppState {
    pub eph_kp: Ed25519KeyPair,
    pub api_key: String,
}

/// `r` is the sealed identifier of `content`, stamped with `timestamp_ms`
/// under the process-data scope, and its signature verifies under the key
/// that it carries.
pub open spec fn attests(
    content: Seq<char>,
    timestamp_ms: u64,
    r: ProcessedDataResponse<IntentMessage<ContentResponse>>,
) -> bool {
    &&& r.response.intent == IntentScope::ProcessData
    &&& r.response.timestamp_ms == timestamp_ms
    &&& r.response.data.content_hash@ == content_id(encode_utf8(content))
    &&& r.response.data.content_hash@.len() == 64
    &&& is_lower_hex(r.response.data.content_hash@)
    &&& r.signature@.len() == 64
    &&& r.public_key@.len() == 32
    &&& signature_valid(r.public_key@, r)
}

/// Reads the wall clock as milliseconds since the Unix epoch.
pub fn now_ms() -> (r: Result<u64, EnclaveError>)
    ensures
        r is Err ==> r == Err::<u64, EnclaveError>(EnclaveError::ClockError),
{
    let now = SystemTime::now();
    match since_unix_epoch(&now) {
        Ok(d) => Ok(d.as_millis() as u64),
        Err(_) => Err(EnclaveError::ClockError),
    }
}

/// Hashes the request's content and seals the identifier at `timestamp_ms`.
pub fn attest_content(keypair: &Ed25519KeyPair, request: &ContentRequest, timestamp_ms: u64) -> (r:
    ProcessedDataResponse<IntentMessage<ContentResponse>>)
    ensures
        attests(request.content@, timestamp_ms, r),
{
    let content_hash = content_hash(request.content.as_str().as_bytes());
    to_signed_response(
        keypair,
        ContentResponse { content_hash },
        timestamp_ms,
        IntentScope::ProcessData,
    )
}

/// Handles one request: reads the clock, then hashes and seals the content.
/// The only failure is a clock before the epoch; nothing partial is returned.
pub fn process_data(state: &AppState, request: ProcessDataRequest<ContentRequest>) -> (r: Result<
    ProcessedDataResponse<IntentMessage<ContentResponse>>,
    EnclaveError,
>)
    ensures
        match r {
            Ok(resp) => attests(request.payload.content@, resp.response.timestamp_ms, resp),
            Err(e) => e == EnclaveError::ClockError,
        },
{
    let timestamp_ms = match now_ms() {
        Ok(t) => t,
        Err(e) => {
            return Err(e);
        },
    };
    Ok(attest_content(&state.eph_kp, &request.payload, timestamp_ms))
}

} // verus!
