//! Identity, signatures and digests, on plain byte values.

use vstd::prelude::*;

use crate::bytes::{read_be64, u64_from_be};

use ed25519_dalek::Verifier;
use sha2::Digest;

verus! {

/// What BLAKE2b with output length `len` and key `key` gives for `data`.
pub uninterp spec fn blake2b_of(len: nat, key: Seq<u8>, data: Seq<u8>) -> Seq<u8>;

/// The Ed25519 public key that belongs to the secret key `secret`.
pub uninterp spec fn ed25519_public_of(secret: Seq<u8>) -> Seq<u8>;

/// The Ed25519 signature of `message` under the secret key `secret`.
pub uninterp spec fn ed25519_signature_of(secret: Seq<u8>, message: Seq<u8>) -> Seq<u8>;

/// Whether `signature` is accepted for `message` under the public key `public`.
pub uninterp spec fn ed25519_accepts(public: Seq<u8>, message: Seq<u8>, signature: Seq<u8>) -> bool;

/// The SHA-256 digest of `data`.
pub uninterp spec fn sha256_of(data: Seq<u8>) -> Seq<u8>;

/// The standard base64 text (with padding) of `data`, as ASCII bytes.
pub uninterp spec fn base64_of(data: Seq<u8>) -> Seq<u8>;

/// What standard base64 decoding makes of `text`: `None` where it is refused.
pub uninterp spec fn base64_decoded(text: Seq<u8>) -> Option<Seq<u8>>;

/// A signing identity: a 32-byte secret key and its public key.
pub struct KeyPair {
    pub public: Vec<u8>,
    pub secret: Vec<u8>,
}

impl KeyPair {
    /// The public key is the one derived from the secret key.
    pub open spec fn wf(&self) -> bool {
        &&& self.secret@.len() == 32
        &&& self.public@.len() == 32
        &&& self.public@ == ed25519_public_of(self.secret@)
    }
}

/// Relies on ed25519_dalek::Keypair::generate, fed by the operating system's
/// random source (rand's OsRng): a fresh 32-byte secret key, and the public key
/// that `PublicKey::from(&SecretKey)` derives from it.
#[verifier::external_body]
fn ed25519_generate() -> (r: KeyPair)
    ensures
        r.wf(),
{
    let keypair = ed25519_dalek::Keypair::generate(&mut rand::rngs::OsRng);
    KeyPair { public: keypair.public.to_bytes().to_vec(), secret: keypair.secret.to_bytes().to_vec() }
}

/// Relies on ed25519_dalek's `ExpandedSecretKey::sign`, with the public key that
/// `PublicKey::from(&SecretKey)` derives: Ed25519 signing is deterministic and
/// gives 64 bytes. `SecretKey::from_bytes` fails on a length other than 32 only.
#[verifier::external_body]
fn ed25519_sign(secret: &[u8], message: &[u8]) -> (r: Vec<u8>)
    requires
        secret@.len() == 32,
    ensures
        r@ == ed25519_signature_of(secret@, message@),
        r@.len() == 64,
{
    let secret = ed25519_dalek::SecretKey::from_bytes(secret).unwrap();
    let public = ed25519_dalek::PublicKey::from(&secret);
    ed25519_dalek::ExpandedSecretKey::from(&secret).sign(message, &public).to_bytes().to_vec()
}

/// Relies on ed25519_dalek's `PublicKey::from_bytes`, `Signature::from_bytes` and
/// `PublicKey::verify`: false where either value does not parse; a signature
/// made with a secret key is accepted under the public key derived from it.
#[verifier::external_body]
fn ed25519_verify(public: &[u8], message: &[u8], signature: &[u8]) -> (r: bool)
    ensures
        r == ed25519_accepts(public@, message@, signature@),
        forall|s: Seq<u8>|
            s.len() == 32 && public@ == ed25519_public_of(s) && signature@
                == #[trigger] ed25519_signature_of(s, message@) ==> r,
{
    match (ed25519_dalek::PublicKey::from_bytes(public), ed25519_dalek::Signature::from_bytes(signature)) {
        (Ok(public), Ok(signature)) => public.verify(message, &signature).is_ok(),
        _ => false,
    }
}

/// Relies on blake2_rfc::blake2b::blake2b: the digest depends on its arguments
/// alone and has `len` bytes; it asserts `1 <= len <= 64` and a key of at most 64 bytes.
#[verifier::external_body]
fn blake2b_digest(len: usize, key: &[u8], data: &[u8]) -> (r: Vec<u8>)
    requires
        1 <= len <= 64,
        key@.len() <= 64,
    ensures
        r@ == blake2b_of(len as nat, key@, data@),
        r@.len() == len,
{
    blake2_rfc::blake2b::blake2b(len, key, data).as_bytes().to_vec()
}

/// Relies on sha2's `Sha256::digest`: 32 bytes that depend on the input alone.
#[verifier::external_body]
fn sha256_digest(data: &[u8]) -> (r: Vec<u8>)
    ensures
        r@ == sha256_of(data@),
        r@.len() == 32,
{
    sha2::Sha256::digest(data).to_vec()
}

/// Relies on base64::encode (standard alphabet, padded), whose text is ASCII:
/// four characters for each started group of three bytes, the last group
/// padded with `=` (two for one byte, one for two bytes).
#[verifier::external_body]
pub(crate) fn base64_encode(data: &[u8]) -> (r: Vec<u8>)
    ensures
        r@ == base64_of(data@),
        r@.len() == 4 * ((data@.len() + 2) / 3),
        data@.len() % 3 == 1 ==> r@[r@.len() - 1] == 61u8 && r@[r@.len() - 2] == 61u8,
        data@.len() % 3 == 2 ==> r@[r@.len() - 1] == 61u8,
{
    base64::encode(data).into_bytes()
}

/// Relies on base64::decode (standard alphabet, padded): it depends on the
/// text alone, and the text that base64::encode made of some bytes decodes to
/// those bytes.
#[verifier::external_body]
pub(crate) fn base64_decode(text: &[u8]) -> (r: Option<Vec<u8>>)
    ensures
        r is Some == base64_decoded(text@) is Some,
        r is Some ==> r->0@ == base64_decoded(text@)->0,
        forall|b: Seq<u8>| #[trigger] base64_of(b) == text@ ==> r is Some && r->0@ == b,
{
    base64::decode(text).ok()
}

/// Creates a fresh signing identity from the operating system's random source.
pub fn generate_keypair() -> (r: KeyPair)
    ensures
        r.wf(),
{
    ed25519_generate()
}

/// Signs `data` with `secret_key`, whose public key is `public_key`.
pub fn sign_data(public_key: &[u8], secret_key: &[u8], data: &[u8]) -> (r: Vec<u8>)
    requires
        secret_key@.len() == 32,
        public_key@ == ed25519_public_of(secret_key@),
    ensures
        r@ == ed25519_signature_of(secret_key@, data@),
        r@.len() == 64,
{
    ed25519_sign(secret_key, data)
}

/// Checks `signature` on `data` under `public_key`; `Err` where it does not hold.
pub fn verify_data(public_key: &[u8], data: &[u8], signature: &[u8]) -> (r: Result<(), ()>)
    ensures
        r is Ok <==> ed25519_accepts(public_key@, data@, signature@),
        forall|s: Seq<u8>|
            s.len() == 32 && public_key@ == ed25519_public_of(s) && signature@
                == #[trigger] ed25519_signature_of(s, data@) ==> r is Ok,
{
    if ed25519_verify(public_key, data, signature) {
        Ok(())
    } else {
        Err(())
    }
}

/// The 32-byte discovery key of a channel: BLAKE2b keyed with `public_key` over `name`.
pub fn generate_discovery_key(public_key: &[u8], name: &[u8]) -> (r: Vec<u8>)
    requires
        public_key@.len() <= 64,
    ensures
        r@ == blake2b_of(32, public_key@, name@),
        r@.len() == 32,
{
    blake2b_digest(32, public_key, name)
}

/// Equal public keys and names give equal discovery keys.
pub proof fn lemma_discovery_key_deterministic(
    public_key1: Seq<u8>,
    name1: Seq<u8>,
    public_key2: Seq<u8>,
    name2: Seq<u8>,
)
    requires
        public_key1 == public_key2,
        name1 == name2,
    ensures
        blake2b_of(32, public_key1, name1) == blake2b_of(32, public_key2, name2),
{
}

/// The chain digest of `data`: its unkeyed 64-byte BLAKE2b digest, of which the
/// first eight bytes are read as a big-endian integer.
pub open spec fn chain_digest(data: Seq<u8>) -> u64 {
    u64_from_be(blake2b_of(64, seq![], data))
}

/// Computes `chain_digest(data)`.
pub fn chain_hash(data: &[u8]) -> (r: u64)
    ensures
        r == chain_digest(data@),
{
    let key: Vec<u8> = Vec::new();
    let digest = blake2b_digest(64, key.as_slice(), data);
    proof {
        assert(key@ =~= seq![]);
    }
    read_be64(digest.as_slice())
}

/// The session token made from a random sample: base64 of the sample's SHA-256 digest.
pub fn token_from_sample(sample: &[u8]) -> (r: Vec<u8>)
    ensures
        r@ == base64_of(sha256_of(sample@)),
        r@.len() == 44,
        r@[43] == 61u8,
{
    let digest = sha256_digest(sample);
    base64_encode(digest.as_slice())
}

} // verus!
