//! Ed25519 keys and signatures, computed by `ring`.

use vstd::prelude::*;
use ring::signature::KeyPair as _;

verus! {

/// The length of an Ed25519 public key.
pub const ED25519_PUBLIC_KEY_LEN: usize = 32;

/// The length of an Ed25519 signature.
pub const ED25519_SIGNATURE_LEN: usize = 64;

/// `ring::signature::Ed25519KeyPair::from_pkcs8` accepts `doc`: an
/// unencrypted PKCS#8 v2 Ed25519 private key whose public key matches it.
pub uninterp spec fn pkcs8_accepted(doc: Seq<u8>) -> bool;

/// The public key of the key pair that `doc` holds, as
/// `Ed25519KeyPair::public_key` gives it.
pub uninterp spec fn ed25519_public_key(doc: Seq<u8>) -> Seq<u8>;

/// The signature of `msg` by the key pair that `doc` holds, as
/// `Ed25519KeyPair::sign` makes it.
pub uninterp spec fn ed25519_signature(doc: Seq<u8>, msg: Seq<u8>) -> Seq<u8>;

/// `ring`'s Ed25519 verification accepts `sig` as a signature of `msg`
/// under `public_key`.
pub uninterp spec fn ed25519_verifies(public_key: Seq<u8>, msg: Seq<u8>, sig: Seq<u8>) -> bool;

/// Calls `Ed25519KeyPair::generate_pkcs8` with a `ring::rand::SystemRandom`.
/// The key comes from the system's random source, so the contract says
/// only that a document, when one comes back, is one that `from_pkcs8`
/// accepts (ring documents it as a PKCS#8 v2 document with the public
/// key, the form `from_pkcs8` parses); `None` when the random source
/// failed.
#[verifier::external_body]
fn ring_generate_pkcs8() -> (r: Option<Vec<u8>>)
    ensures
        r matches Some(doc) ==> pkcs8_accepted(doc@),
{
    let rng = ring::rand::SystemRandom::new();
    match ring::signature::Ed25519KeyPair::generate_pkcs8(&rng) {
        Ok(doc) => Some(doc.as_ref().to_vec()),
        Err(_) => None,
    }
}

/// Parses `doc` with `Ed25519KeyPair::from_pkcs8` and returns the bytes of
/// the key pair's public key, which ring holds as a 32-byte array; `None`
/// where the document is refused.
#[verifier::external_body]
fn ring_public_key(doc: &[u8]) -> (r: Option<Vec<u8>>)
    ensures
        r is Some <==> pkcs8_accepted(doc@),
        r matches Some(pk) ==> pk@ == ed25519_public_key(doc@) && pk@.len()
            == ED25519_PUBLIC_KEY_LEN,
{
    match ring::signature::Ed25519KeyPair::from_pkcs8(doc) {
        Ok(key_pair) => Some(key_pair.public_key().as_ref().to_vec()),
        Err(_) => None,
    }
}

/// Parses `doc` with `Ed25519KeyPair::from_pkcs8` and signs `msg` with
/// `Ed25519KeyPair::sign`; `None` where the document is refused. Ed25519
/// (RFC 8032, which ring implements) signs deterministically, and a
/// signature it makes is accepted by its verification under the key
/// pair's public key: the contract states both, and the signature's
/// length, 64 bytes (the point R and the scalar S, 32 bytes each).
#[verifier::external_body]
fn ring_sign(doc: &[u8], msg: &[u8]) -> (r: Option<Vec<u8>>)
    ensures
        r is Some <==> pkcs8_accepted(doc@),
        r matches Some(sig) ==> sig@ == ed25519_signature(doc@, msg@) && sig@.len()
            == ED25519_SIGNATURE_LEN && ed25519_verifies(ed25519_public_key(doc@), msg@, sig@),
{
    match ring::signature::Ed25519KeyPair::from_pkcs8(doc) {
        Ok(key_pair) => Some(key_pair.sign(msg).as_ref().to_vec()),
        Err(_) => None,
    }
}

/// Calls `UnparsedPublicKey::new(&ring::signature::ED25519, public_key)
/// .verify(msg, sig)`: whether it succeeds. Ring reads the public key as
/// exactly 32 bytes and the signature as exactly 64 (two 32-byte halves,
/// with nothing left over), and answers with an error otherwise; the
/// contract states that refusal.
#[verifier::external_body]
fn ring_verify(public_key: &[u8], msg: &[u8], sig: &[u8]) -> (r: bool)
    ensures
        r == ed25519_verifies(public_key@, msg@, sig@),
        (public_key@.len() != ED25519_PUBLIC_KEY_LEN || sig@.len() != ED25519_SIGNATURE_LEN) ==> !r,
{
    ring::signature::UnparsedPublicKey::new(&ring::signature::ED25519, public_key).verify(
        msg,
        sig,
    ).is_ok()
}

/// An Ed25519 key pair: its PKCS#8 document and its public key.
pub struct KeyPair {
    pkcs8: Vec<u8>,
    public_key: Vec<u8>,
}

impl KeyPair {
    /// The document is one that ring accepts, and the public key is its.
    #[verifier::type_invariant]
    closed spec fn inv(&self) -> bool {
        &&& pkcs8_accepted(self.pkcs8@)
        &&& self.public_key@ == ed25519_public_key(self.pkcs8@)
        &&& self.public_key@.len() == ED25519_PUBLIC_KEY_LEN
    }

    /// The PKCS#8 document of the key pair.
    pub closed spec fn document(&self) -> Seq<u8> {
        self.pkcs8@
    }

    /// The key pair's public key.
    pub fn public_key(&self) -> (r: &[u8])
        ensures
            r@ == ed25519_public_key(self.document()),
            r@.len() == ED25519_PUBLIC_KEY_LEN,
    {
        proof {
            use_type_invariant(self);
        }
        self.public_key.as_slice()
    }

    /// The key pair's PKCS#8 document.
    pub fn pkcs8(&self) -> (r: &[u8])
        ensures
            r@ == self.document(),
            pkcs8_accepted(r@),
    {
        proof {
            use_type_invariant(self);
        }
        self.pkcs8.as_slice()
    }
}

impl KeyPair {
    /// The key pair that a PKCS#8 document holds; `None` where ring refuses
    /// the document.
    pub fn from_document(doc: Vec<u8>) -> (r: Option<KeyPair>)
        ensures
            r is Some <==> pkcs8_accepted(doc@),
            r matches Some(kp) ==> kp.document() == doc@,
    {
        match ring_public_key(doc.as_slice()) {
            Some(public_key) => Some(KeyPair { pkcs8: doc, public_key }),
            None => None,
        }
    }
}

/// Generates a new random key pair; `None` when the system's random
/// source failed.
pub fn generate_key_pair() -> (r: Option<KeyPair>)
    ensures
        r matches Some(kp) ==> pkcs8_accepted(kp.document()),
{
    let doc = ring_generate_pkcs8()?;
    KeyPair::from_document(doc)
}

/// Signs `message` with `key_pair`. The signature is accepted by
/// `verify` under the key pair's public key.
pub fn sign(key_pair: &KeyPair, message: &[u8]) -> (r: Vec<u8>)
    ensures
        r@ == ed25519_signature(key_pair.document(), message@),
        r@.len() == ED25519_SIGNATURE_LEN,
        ed25519_verifies(ed25519_public_key(key_pair.document()), message@, r@),
{
    proof {
        use_type_invariant(key_pair);
    }
    match ring_sign(key_pair.pkcs8.as_slice(), message) {
        Some(sig) => sig,
        None => Vec::new(),
    }
}

/// Whether `signature` is an Ed25519 signature of `message` under
/// `public_key`. A key that is not 32 bytes long, or a signature that is
/// not 64, is refused.
pub fn verify(public_key: &[u8], message: &[u8], signature: &[u8]) -> (r: bool)
    ensures
        r == ed25519_verifies(public_key@, message@, signature@),
        (public_key@.len() != ED25519_PUBLIC_KEY_LEN || signature@.len() != ED25519_SIGNATURE_LEN)
            ==> !r,
{
    ring_verify(public_key, message, signature)
}

/// Why stored keys were refused.
#[derive(PartialEq, Eq, Structural, Clone, Copy, Debug)]
pub enum KeyPairError {
    /// The private key file does not hold a key pair that ring accepts.
    InvalidPrivateKey,
    /// Public / Private key mismatch
    KeyMismatch,
}

/// Whether two byte strings are equal.
fn bytes_eq(a: &[u8], b: &[u8]) -> (r: bool)
    ensures
        r == (a@ == b@),
{
    if a.len() != b.len() {
        return false;
    }
    let mut i: usize = 0;
    while i < a.len()
        invariant
            a@.len() == b@.len(),
            i <= a@.len(),
            forall|j: int| 0 <= j < i ==> a@[j] == b@[j],
        decreases a@.len() - i,
    {
        if a[i] != b[i] {
            return false;
        }
        i = i + 1;
    }
    assert(a@ =~= b@);
    true
}

/// The key pair of a private key file's content, checked against the
/// content of the public key file: the public key that the file gives
/// must be the private key's.
pub fn read_key_pair(private_key_bytes: Vec<u8>, public_key_bytes: &[u8]) -> (r: Result<
    KeyPair,
    KeyPairError,
>)
    ensures
        !pkcs8_accepted(private_key_bytes@) ==> r == Err::<KeyPair, KeyPairError>(
            KeyPairError::InvalidPrivateKey,
        ),
        pkcs8_accepted(private_key_bytes@) && ed25519_public_key(private_key_bytes@)
            != public_key_bytes@ ==> r == Err::<KeyPair, KeyPairError>(KeyPairError::KeyMismatch),
        pkcs8_accepted(private_key_bytes@) && ed25519_public_key(private_key_bytes@)
            == public_key_bytes@ ==> (r matches Ok(kp) && kp.document() == private_key_bytes@),
{
    let key_pair = match KeyPair::from_document(private_key_bytes) {
        Some(kp) => kp,
        None => {
            return Err(KeyPairError::InvalidPrivateKey);
        },
    };
    if !bytes_eq(key_pair.public_key(), public_key_bytes) {
        return Err(KeyPairError::KeyMismatch);
    }
    Ok(key_pair)
}

} // verus!
