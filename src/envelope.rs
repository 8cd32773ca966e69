//! The signed response envelope: a payload stamped with a time and an intent
//! scope, laid out canonically and signed by the enclave's key.

use crate::signing::{ed25519_verifies, sign_message, verify_signature};
use crate::wire::{le_bytes, lemma_le_bytes_injective, lemma_le_bytes_len, pow256, push_u64_le};
use fastcrypto::ed25519::Ed25519KeyPair;
use vstd::prelude::*;

verus! {

/// The purpose a signature is made for; a verifier expects one fixed code per
/// endpoint, so a signature for one purpose is no evidence for another.
#[derive(Clone, Copy, Debug, PartialEq, Eq, Structural)]
pub enum IntentScope {
    ProcessData,
}

impl IntentScope {
    pub open spec fn spec_code(&self) -> u8 {
        match self {
            IntentScope::ProcessData => 0,
        }
    }

    /// The byte that stands for the scope in the signed message.
    #[verifier::when_used_as_spec(spec_code)]
    pub fn code(&self) -> (r: u8)
        ensures
            r == self.spec_code(),
    {
        match self {
            IntentScope::ProcessData => 0,
        }
    }
}

/// A payload with a canonical byte layout: one value, one sequence of bytes.
pub trait CanonicalPayload: Sized {
    spec fn canonical_bytes(&self) -> Seq<u8>;

    /// Appends the canonical bytes of `self`.
    fn encode_into(&self, out: &mut Vec<u8>)
        ensures
            final(out)@ == old(out)@ + self.canonical_bytes(),
    ;
}

/// A request carrying an endpoint's payload.
#[derive(Debug)]
pub struct ProcessDataRequest<T> {
    pub payload: T,
}

/// What is signed: the scope, the time of signing and the payload.
#[derive(Debug)]
pub struct IntentMessage<T> {
    pub intent: IntentScope,
    pub timestamp_ms: u64,
    pub data: T,
}

/// A signed message with its signature and the public key that made it.
#[derive(Debug)]
pub struct ProcessedDataResponse<T> {
    pub response: T,
    pub signature: Vec<u8>,
    pub public_key: Vec<u8>,
}

/// The signed bytes: the scope byte, the timestamp as eight little-endian
/// bytes, then the payload's canonical bytes.
pub open spec fn canonical_message(scope: u8, timestamp_ms: u64, payload: Seq<u8>) -> Seq<u8> {
    seq![scope] + le_bytes(timestamp_ms as nat, 8) + payload
}

pub open spec fn signing_bytes<T: CanonicalPayload>(m: IntentMessage<T>) -> Seq<u8> {
    canonical_message(m.intent.spec_code(), m.timestamp_ms, m.data.canonical_bytes())
}

/// The response's signature verifies under `public_key` over the canonical
/// bytes of its message.
pub open spec fn signature_valid<T: CanonicalPayload>(
    public_key: Seq<u8>,
    r: ProcessedDataResponse<IntentMessage<T>>,
) -> bool {
    ed25519_verifies(public_key, signing_bytes(r.response), r.signature@)
}

/// The canonical bytes of a message, as they are signed.
pub fn signing_message<T: CanonicalPayload>(m: &IntentMessage<T>) -> (r: Vec<u8>)
    ensures
        r@ == signing_bytes(*m),
{
    let mut out: Vec<u8> = Vec::new();
    out.push(m.intent.code());
    push_u64_le(&mut out, m.timestamp_ms);
    m.data.encode_into(&mut out);
    assert(out@ =~= signing_bytes(*m));
    out
}

/// Seals `payload`: stamps it with `timestamp_ms` and `intent`, signs the
/// canonical bytes with `keypair`, and returns the message with the signature
/// and the key's public half, under which the signature verifies.
pub fn to_signed_response<T: CanonicalPayload>(
    keypair: &Ed25519KeyPair,
    payload: T,
    timestamp_ms: u64,
    intent: IntentScope,
) -> (r: ProcessedDataResponse<IntentMessage<T>>)
    ensures
        r.response == (IntentMessage { intent, timestamp_ms, data: payload }),
        r.signature@.len() == 64,
        r.public_key@.len() == 32,
        signature_valid(r.public_key@, r),
{
    let message = IntentMessage { intent, timestamp_ms, data: payload };
    let bytes = signing_message(&message);
    let (signature, public_key) = sign_message(keypair, bytes.as_slice());
    ProcessedDataResponse { response: message, signature, public_key }
}

/// Checks a response's signature under `public_key`, over the canonical bytes
/// of the message it carries.
pub fn verify_signed_response<T: CanonicalPayload>(
    public_key: &[u8],
    r: &ProcessedDataResponse<IntentMessage<T>>,
) -> (ok: bool)
    ensures
        ok == signature_valid(public_key@, *r),
{
    let bytes = signing_message(&r.response);
    verify_signature(public_key, bytes.as_slice(), r.signature.as_slice())
}

proof fn lemma_pow256_8()
    ensures
        pow256(8) == 0x1_0000_0000_0000_0000,
{
    reveal_with_fuel(pow256, 9);
}

/// The signed bytes determine the scope, the timestamp and the payload bytes:
/// changing any of the three changes what a signature must cover.
pub proof fn lemma_canonical_message_injective(
    s1: u8,
    t1: u64,
    p1: Seq<u8>,
    s2: u8,
    t2: u64,
    p2: Seq<u8>,
)
    requires
        canonical_message(s1, t1, p1) == canonical_message(s2, t2, p2),
    ensures
        s1 == s2,
        t1 == t2,
        p1 == p2,
{
    let m1 = canonical_message(s1, t1, p1);
    let m2 = canonical_message(s2, t2, p2);
    lemma_le_bytes_len(t1 as nat, 8);
    lemma_le_bytes_len(t2 as nat, 8);
    assert(m1[0] == s1);
    assert(m2[0] == s2);
    assert(m1.subrange(1, 9) =~= le_bytes(t1 as nat, 8));
    assert(m2.subrange(1, 9) =~= le_bytes(t2 as nat, 8));
    assert(m1.subrange(9, m1.len() as int) =~= p1);
    assert(m2.subrange(9, m2.len() as int) =~= p2);
    lemma_pow256_8();
    lemma_le_bytes_injective(t1 as nat, t2 as nat, 8);
}

/// Scope binding: for the same timestamp and payload, two different scope
/// codes give two different signed messages.
pub proof fn lemma_scope_binding(a: u8, b: u8, timestamp_ms: u64, payload: Seq<u8>)
    requires
        a != b,
    ensures
        canonical_message(a, timestamp_ms, payload) != canonical_message(b, timestamp_ms, payload),
{
    if canonical_message(a, timestamp_ms, payload) == canonical_message(b, timestamp_ms, payload) {
        lemma_canonical_message_injective(a, timestamp_ms, payload, b, timestamp_ms, payload);
    }
}

} // verus!
