//! An enclave endpoint that hashes submitted content and returns the result
//! inside a signed, time-stamped and scope-tagged envelope.

mod content_attestor;
mod digest;
mod envelope;
mod signing;
mod wire;

pub use content_attestor::{
    attest_content, attests, now_ms, process_data, AppState, ContentRequest, ContentResponse,
    EnclaveError,
};
pub use digest::{
    content_hash, content_id, hex_lower, is_lower_hex, lemma_content_id_deterministic,
    lemma_hex_lower_injective,
};
pub use envelope::{
    canonical_message, lemma_canonical_message_injective, lemma_scope_binding, signature_valid,
    signing_bytes, signing_message, to_signed_response, verify_signed_response, CanonicalPayload,
    IntentMessage, IntentScope, ProcessDataRequest, ProcessedDataResponse,
};
pub use signing::ed25519_verifies;
pub use wire::{le_bytes, pow256, push_bytes, push_u64_le, push_uleb128, uleb128};
