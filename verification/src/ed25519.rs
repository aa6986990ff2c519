//! Ed25519 keys and signatures, held as plain bytes.
//!
//! The cryptographic work is done by the `ring` crate behind a small trusted
//! boundary. Every quantity that crosses that boundary is a byte sequence: a
//! key pair is the content of an unencrypted PKCS#8 v2 document, a public key
//! is its 32 raw bytes, a signature is its 64 raw bytes. The uninterpreted
//! spec functions below name what `ring` computes from those bytes; each is a
//! pure function of its arguments, on every machine, so the names are
//! well defined.

use vstd::prelude::*;

verus! {

/// Whether `pkcs8` is an unencrypted PKCS#8 v2 document that the Ed25519
/// scheme accepts as a key pair.
pub uninterp spec fn ed25519_wf(pkcs8: Seq<u8>) -> bool;

/// The 32 raw bytes of the public verification key belonging to the key pair
/// in an accepted PKCS#8 document.
pub uninterp spec fn ed25519_public_key(pkcs8: Seq<u8>) -> Seq<u8>;

/// The 64 signature bytes that the key pair in `pkcs8` produces over `msg`.
/// Ed25519 signing is deterministic, so this is a function of the two
/// arguments alone.
pub uninterp spec fn ed25519_signature(pkcs8: Seq<u8>, msg: Seq<u8>) -> Seq<u8>;

/// Whether Ed25519 verification accepts `sig` as a signature over `msg` under
/// the raw public key `pk`.
pub uninterp spec fn ed25519_accepts(pk: Seq<u8>, msg: Seq<u8>, sig: Seq<u8>) -> bool;

/// Relies on `ring::signature::Ed25519KeyPair::from_pkcs8`: parsing reads
/// nothing but the document bytes, so acceptance is a fact about them alone.
#[verifier::external_body]
fn pkcs8_accepted(pkcs8: &[u8]) -> (r: bool)
    ensures
        r == ed25519_wf(pkcs8@),
{
    ring::signature::Ed25519KeyPair::from_pkcs8(pkcs8).is_ok()
}

/// Relies on `ring::signature::Ed25519KeyPair::from_pkcs8` and
/// `ring::signature::KeyPair::public_key`: an accepted PKCS#8 v2 document
/// carries the public key of its pair, returned here as its 32 raw bytes.
#[verifier::external_body]
fn pkcs8_public_key(pkcs8: &[u8]) -> (r: Vec<u8>)
    requires
        ed25519_wf(pkcs8@),
    ensures
        r@ == ed25519_public_key(pkcs8@),
        r@.len() == 32,
{
    let pair = ring::signature::Ed25519KeyPair::from_pkcs8(pkcs8).unwrap();
    ring::signature::KeyPair::public_key(&pair).as_ref().to_vec()
}

/// Relies on `ring::signature::Ed25519KeyPair::sign`: Ed25519 signing is
/// deterministic (RFC 8032; the nonce is a hash of the private prefix and the
/// message), the signature is 64 bytes, and it verifies under the public key
/// of the pair that produced it.
#[verifier::external_body]
fn pkcs8_sign(pkcs8: &[u8], msg: &[u8]) -> (r: Vec<u8>)
    requires
        ed25519_wf(pkcs8@),
    ensures
        r@ == ed25519_signature(pkcs8@, msg@),
        r@.len() == 64,
        ed25519_accepts(ed25519_public_key(pkcs8@), msg@, r@),
{
    let pair = ring::signature::Ed25519KeyPair::from_pkcs8(pkcs8).unwrap();
    pair.sign(msg).as_ref().to_vec()
}

/// Relies on `ring::signature::UnparsedPublicKey::verify` with the
/// `ring::signature::ED25519` algorithm: acceptance is a pure function of the
/// public-key bytes, the message and the candidate signature, and malformed
/// input of any of the three is reported as rejection, never as a panic.
#[verifier::external_body]
fn ed25519_verify(pk: &[u8], msg: &[u8], sig: &[u8]) -> (r: bool)
    ensures
        r == ed25519_accepts(pk@, msg@, sig@),
{
    ring::signature::UnparsedPublicKey::new(&ring::signature::ED25519, pk)
        .verify(msg, sig)
        .is_ok()
}

/// Why key material was refused.
#[derive(Clone, Copy, Debug, PartialEq, Eq, Structural)]
pub enum KeyError {
    /// The bytes do not form an Ed25519 key-pair document.
    InvalidKey,
}

/// An Ed25519 key pair, held as the content of an unencrypted PKCS#8 v2
/// document. Only bytes that the scheme accepts can become a `SigningKey`,
/// so signing with one never fails.
pub struct SigningKey {
    pkcs8: Vec<u8>,
}

impl View for SigningKey {
    type V = Seq<u8>;

    closed spec fn view(&self) -> Seq<u8> {
        self.pkcs8@
    }
}

impl SigningKey {
    #[verifier::type_invariant]
    closed spec fn wf(self) -> bool {
        ed25519_wf(self.pkcs8@)
    }

    /// Accept exactly the byte sequences that parse as an Ed25519 PKCS#8 v2
    /// key-pair document; anything else is refused as `InvalidKey`.
    pub fn from_pkcs8(bytes: Vec<u8>) -> (r: Result<SigningKey, KeyError>)
        ensures
            r is Ok <==> ed25519_wf(bytes@),
            r matches Ok(k) ==> k@ == bytes@,
            r matches Err(e) ==> e == KeyError::InvalidKey,
    {
        if pkcs8_accepted(bytes.as_slice()) {
            Ok(SigningKey { pkcs8: bytes })
        } else {
            Err(KeyError::InvalidKey)
        }
    }

    /// The raw bytes of the public verification key belonging to this pair.
    pub fn public_key(&self) -> (pk: PublicKey)
        ensures
            pk@ == ed25519_public_key(self@),
    {
        proof {
            use_type_invariant(&*self);
        }
        PublicKey { bytes: pkcs8_public_key(self.pkcs8.as_slice()) }
    }

    /// Sign `msg` with this key pair. The signature is a function of the key
    /// and the message alone, and verifies under this pair's public key.
    pub fn sign_bytes(&self, msg: &[u8]) -> (s: Signature)
        ensures
            s@ == ed25519_signature(self@, msg@),
            s@.len() == 64,
            ed25519_accepts(ed25519_public_key(self@), msg@, s@),
    {
        proof {
            use_type_invariant(&*self);
        }
        Signature { bytes: pkcs8_sign(self.pkcs8.as_slice(), msg) }
    }
}

/// The raw bytes of an Ed25519 public verification key: 32 bytes when derived
/// from a `SigningKey`. Arbitrary bytes may be held; under a malformed key,
/// verification rejects every signature rather than failing.
pub struct PublicKey {
    bytes: Vec<u8>,
}

impl View for PublicKey {
    type V = Seq<u8>;

    closed spec fn view(&self) -> Seq<u8> {
        self.bytes@
    }
}

impl PublicKey {
    /// Wrap raw public-key bytes, for instance ones received from a peer.
    pub fn from_bytes(bytes: Vec<u8>) -> (pk: PublicKey)
        ensures
            pk@ == bytes@,
    {
        PublicKey { bytes }
    }

    /// The raw bytes of this key.
    pub fn as_bytes(&self) -> (r: &[u8])
        ensures
            r@ == self@,
    {
        self.bytes.as_slice()
    }

    /// Whether Ed25519 verification accepts `sig` as a signature over `msg`
    /// under this key.
    pub fn verify_bytes(&self, msg: &[u8], sig: &Signature) -> (r: bool)
        ensures
            r == ed25519_accepts(self@, msg@, sig@),
    {
        ed25519_verify(self.bytes.as_slice(), msg, sig.bytes.as_slice())
    }
}

/// An Ed25519 signature, held as its raw bytes: 64 when produced by signing.
/// Arbitrary bytes may be held; corrupt ones simply fail verification.
pub struct Signature {
    bytes: Vec<u8>,
}

impl View for Signature {
    type V = Seq<u8>;

    closed spec fn view(&self) -> Seq<u8> {
        self.bytes@
    }
}

impl Signature {
    /// Wrap candidate signature bytes, for instance ones received from a peer.
    pub fn from_bytes(bytes: Vec<u8>) -> (s: Signature)
        ensures
            s@ == bytes@,
    {
        Signature { bytes }
    }

    /// The raw bytes of this signature.
    pub fn as_bytes(&self) -> (r: &[u8])
        ensures
            r@ == self@,
    {
        self.bytes.as_slice()
    }
}

} // verus!
