//! Key pairs on secp256k1, their renderings, and the address derived from a
//! public key.
//!
//! A key pair is held as plain bytes: the 32-byte secret scalar and the
//! 65-byte uncompressed public key. The curve arithmetic, the hash and the
//! random source are outside libraries, reached through the trusted
//! functions of this module; everything decided here is verified.

use crate::encoding::{hex_bytes, hex_encode, hex_lower, lemma_hex_round_trip};
use crate::entropy::get_nstime;
use vstd::prelude::*;
use vstd::slice::{slice_subrange, slice_to_vec};

verus! {

/// Length of a secret key in bytes.
pub const SECRET_KEY_SIZE: usize = 32;

/// Length of an uncompressed public key in bytes: the prefix, X and Y.
pub const PUBLIC_KEY_SIZE: usize = 65;

/// The byte that opens every uncompressed public key.
pub const UNCOMPRESSED_PREFIX: u8 = 0x04;

/// Length of an address in bytes.
pub const ADDRESS_SIZE: usize = 20;

/// The uncompressed public key that secp256k1 derives from a secret key:
/// `None` where the 32 bytes are no valid secret key (zero, or not below the
/// group order), else the 65 bytes of `secret * G`.
pub uninterp spec fn derived_public_key(secret: Seq<u8>) -> Option<Seq<u8>>;

/// The standard text of the public key that 65 encoded bytes stand for:
/// `None` where secp256k1 does not accept them as a public key.
pub uninterp spec fn public_key_text(encoded: Seq<u8>) -> Option<Seq<char>>;

/// The Keccak-256 digest of a byte sequence.
pub uninterp spec fn keccak256_digest(data: Seq<u8>) -> Seq<u8>;

/// Why a secret key and a public key do not make a key pair.
#[derive(Clone, Copy, Debug, PartialEq, Eq, Structural)]
pub enum KeyError {
    /// The secret bytes are zero or not below the group order.
    InvalidSecretKey,
    /// The public key is not the one that belongs to the secret key.
    PublicKeyMismatch,
    /// The uncompressed public key does not begin with `0x04`.
    LibraryInvariantViolation,
    /// The public key's bytes are not accepted as a point of the curve.
    InvalidPublicKey,
    /// The random source handed out a secret key that is not valid.
    EntropyFailure,
}

/// The first reason, if any, to reject a public key, given the key derived
/// from the secret key and whether the public key has a standard text.
pub open spec fn rejection(public: Seq<u8>, derived: Option<Seq<u8>>, has_text: bool) -> Option<
    KeyError,
> {
    if derived.is_none() {
        Some(KeyError::InvalidSecretKey)
    } else if derived != Some(public) {
        Some(KeyError::PublicKeyMismatch)
    } else if public[0] != UNCOMPRESSED_PREFIX {
        Some(KeyError::LibraryInvariantViolation)
    } else if !has_text {
        Some(KeyError::InvalidPublicKey)
    } else {
        None
    }
}

/// The first reason, if any, for which `secret` and `public` make no key pair.
pub open spec fn verdict(secret: Seq<u8>, public: Seq<u8>) -> Option<KeyError> {
    rejection(public, derived_public_key(secret), public_key_text(public).is_some())
}

/// The error that an objection to a freshly drawn pair is reported as: an
/// invalid secret key is the random source's failure, any other objection
/// stands as it is.
pub open spec fn sampling_error(objection: KeyError) -> KeyError {
    if objection == KeyError::InvalidSecretKey {
        KeyError::EntropyFailure
    } else {
        objection
    }
}

/// The bytes that are hashed for the address, and that identify a node: the
/// uncompressed public key without its prefix.
pub open spec fn coordinates(public: Seq<u8>) -> Seq<u8> {
    public.subrange(1, PUBLIC_KEY_SIZE as int)
}

/// The address cut from a 32-byte digest: its last twenty bytes.
pub open spec fn digest_tail(digest: Seq<u8>) -> Seq<u8> {
    digest.subrange(12, 32)
}

/// The address of an uncompressed public key: the last twenty bytes of the
/// Keccak-256 digest of its coordinates.
pub open spec fn address_of(public: Seq<u8>) -> Seq<u8> {
    digest_tail(keccak256_digest(coordinates(public)))
}

/// The short form of an address: `0x`, its first two bytes in hexadecimal,
/// an ellipsis, and its last two bytes.
pub open spec fn short_text(bytes: Seq<u8>) -> Seq<char> {
    seq!['0', 'x'] + hex_lower(bytes.subrange(0, 2)) + seq!['\u{2026}'] + hex_lower(
        bytes.subrange(18, 20),
    )
}

/// The full form of an address: `0x` and all its bytes in hexadecimal.
pub open spec fn full_text(bytes: Seq<u8>) -> Seq<char> {
    seq!['0', 'x'] + hex_lower(bytes)
}

/// A fresh secret key and its public key, both as bytes.
///
/// Trusted: calls `Secp256k1::generate_keypair` on a `JitterRng` that reads
/// `get_nstime`, and hands out `SecretKey::secret_bytes` and
/// `PublicKey::serialize_uncompressed`. The outcome is random, and nothing
/// is claimed of it.
#[verifier::external_body]
fn sample_key_pair() -> (pair: ([u8; 32], [u8; 65])) {
    let secp = secp256k1::Secp256k1::new();
    let mut rng = rand_jitter::JitterRng::new_with_timer(get_nstime);
    let (secret_key, pub_key) = secp.generate_keypair(&mut rng);
    (secret_key.secret_bytes(), pub_key.serialize_uncompressed())
}

/// The uncompressed public key of a secret key.
///
/// Trusted: parses the bytes with `SecretKey::from_slice`, derives the key
/// with `PublicKey::from_secret_key` and serialises it with
/// `PublicKey::serialize_uncompressed`. The result depends on the bytes
/// alone and is what `derived_public_key` names.
#[verifier::external_body]
fn derive_public_key(secret: &[u8; 32]) -> (public: Option<[u8; 65]>)
    ensures
        match public {
            Some(p) => derived_public_key(secret@) == Some(p@),
            None => derived_public_key(secret@).is_none(),
        },
{
    let secp = secp256k1::Secp256k1::new();
    match secp256k1::SecretKey::from_slice(secret) {
        Ok(key) => Some(secp256k1::PublicKey::from_secret_key(&secp, &key).serialize_uncompressed()),
        Err(_) => None,
    }
}

/// The standard text of an encoded public key.
///
/// Trusted: parses the bytes with `PublicKey::from_slice` and renders the
/// key through its `Display`. The result depends on the bytes alone and is
/// what `public_key_text` names.
#[verifier::external_body]
fn render_public_key(encoded: &[u8; 65]) -> (text: Option<String>)
    ensures
        match text {
            Some(s) => public_key_text(encoded@) == Some(s@),
            None => public_key_text(encoded@).is_none(),
        },
{
    match secp256k1::PublicKey::from_slice(encoded) {
        Ok(key) => Some(key.to_string()),
        Err(_) => None,
    }
}

/// The Keccak-256 digest of `data`.
///
/// Trusted: calls `tiny_keccak::keccak256`, a function of the bytes alone;
/// its result is what `keccak256_digest` names.
#[verifier::external_body]
fn keccak256(data: &[u8]) -> (digest: [u8; 32])
    ensures
        digest@ == keccak256_digest(data@),
{
    tiny_keccak::keccak256(data)
}

/// Twenty bytes as a fixed-size hash value.
///
/// Trusted: calls `web3::types::Address::from_slice`, which panics unless
/// given twenty bytes and otherwise holds a copy of them in their order.
#[verifier::external_body]
fn h160_from_slice(src: &[u8]) -> (bytes: [u8; 20])
    requires
        src@.len() == ADDRESS_SIZE,
    ensures
        bytes@ == src@,
{
    web3::types::Address::from_slice(src).0
}

/// The short text of twenty bytes as a fixed-size hash value.
///
/// Trusted: formats `web3::types::Address` through its `Display`, which
/// writes `0x`, the first two bytes as two lower-case hexadecimal digits
/// each, an ellipsis, and the last two bytes likewise.
#[verifier::external_body]
fn h160_display(bytes: &[u8; 20]) -> (text: String)
    ensures
        text@ == short_text(bytes@),
{
    format!("{}", web3::types::Address::from_slice(bytes))
}

/// The full text of twenty bytes as a fixed-size hash value.
///
/// Trusted: formats `web3::types::Address` through its `Debug`, which
/// writes `0x` and every byte as two lower-case hexadecimal digits.
#[verifier::external_body]
fn h160_debug(bytes: &[u8; 20]) -> (text: String)
    ensures
        text@ == full_text(bytes@),
{
    format!("{:?}", web3::types::Address::from_slice(bytes))
}

/// A 20-byte account address.
#[derive(Clone, Copy, Debug, PartialEq, Eq)]
pub struct Address {
    bytes: [u8; 20],
}

impl View for Address {
    type V = Seq<u8>;

    closed spec fn view(&self) -> Seq<u8> {
        self.bytes@
    }
}

impl Address {
    /// Every address is twenty bytes long.
    pub proof fn lemma_len(self)
        ensures
            self@.len() == ADDRESS_SIZE,
    {
    }

    /// The address cut from a Keccak-256 digest: its last twenty bytes.
    pub fn from_digest(digest: &[u8; 32]) -> (address: Address)
        ensures
            address@ == digest_tail(digest@),
            address@.len() == ADDRESS_SIZE,
    {
        let tail = slice_subrange(digest.as_slice(), 12, 32);
        Address { bytes: h160_from_slice(tail) }
    }

    /// The address as it is written to a file: the short form.
    pub fn display_text(&self) -> (text: String)
        ensures
            text@ == short_text(self@),
    {
        h160_display(&self.bytes)
    }

    /// The address as it is shown on the terminal: the full form.
    pub fn debug_text(&self) -> (text: String)
        ensures
            text@ == full_text(self@),
    {
        h160_debug(&self.bytes)
    }

    /// The address's bytes.
    pub fn bytes(&self) -> (bytes: [u8; 20])
        ensures
            bytes@ == self@,
    {
        self.bytes
    }
}

/// Whether two encoded public keys hold the same bytes.
fn same_bytes(a: &[u8; 65], b: &[u8; 65]) -> (same: bool)
    ensures
        same == (a@ == b@),
{
    let mut i: usize = 0;
    while i < 65
        invariant
            i <= 65,
            forall|j: int| 0 <= j < i ==> a@[j] == b@[j],
        decreases 65 - i,
    {
        if a[i] != b[i] {
            return false;
        }
        i += 1;
    }
    assert(a@ =~= b@);
    true
}

/// The mathematical value of an optional encoded public key.
pub open spec fn optional_bytes(key: Option<[u8; 65]>) -> Option<Seq<u8>> {
    match key {
        Some(bytes) => Some(bytes@),
        None => None,
    }
}

/// A secp256k1 key pair: a secret key and the public key that belongs to it.
#[derive(Clone, Copy, Debug)]
pub struct KeyPair {
    sec_key: [u8; 32],
    pub_key: [u8; 65],
}

impl KeyPair {
    /// The secret key's 32 bytes.
    pub closed spec fn secret(self) -> Seq<u8> {
        self.sec_key@
    }

    /// The public key's 65 bytes, uncompressed.
    pub closed spec fn public(self) -> Seq<u8> {
        self.pub_key@
    }

    /// What holds of every key pair: the sizes, and that nothing speaks
    /// against the pair (the secret key is valid, the public key is the one
    /// derived from it, begins with `0x04` and has a standard text).
    pub open spec fn wf(self) -> bool {
        &&& self.secret().len() == SECRET_KEY_SIZE
        &&& self.public().len() == PUBLIC_KEY_SIZE
        &&& verdict(self.secret(), self.public()).is_none()
    }

    #[verifier::type_invariant]
    spec fn inv(self) -> bool {
        self.wf()
    }

    /// Decides whether a public key may stand beside a secret key, from what
    /// the curve library derived from the secret key and whether it found a
    /// standard text for the public key. Returns the first objection.
    pub fn check_parts(public: &[u8; 65], derived: &Option<[u8; 65]>, has_text: bool) -> (objection:
        Option<KeyError>)
        ensures
            objection == rejection(public@, optional_bytes(*derived), has_text),
    {
        match derived {
            None => Some(KeyError::InvalidSecretKey),
            Some(expected) => {
                if !same_bytes(expected, public) {
                    Some(KeyError::PublicKeyMismatch)
                } else if public[0] != UNCOMPRESSED_PREFIX {
                    Some(KeyError::LibraryInvariantViolation)
                } else if !has_text {
                    Some(KeyError::InvalidPublicKey)
                } else {
                    None
                }
            },
        }
    }

    /// Makes a key pair of a secret key and an uncompressed public key, or
    /// says why they are none.
    pub fn from_parts(secret: [u8; 32], public: [u8; 65]) -> (pair: Result<KeyPair, KeyError>)
        ensures
            match pair {
                Ok(kp) => {
                    &&& verdict(secret@, public@).is_none()
                    &&& kp.secret() == secret@
                    &&& kp.public() == public@
                    &&& kp.wf()
                },
                Err(e) => verdict(secret@, public@) == Some(e),
            },
    {
        let derived = derive_public_key(&secret);
        let text = render_public_key(&public);
        match KeyPair::check_parts(&public, &derived, text.is_some()) {
            Some(objection) => Err(objection),
            None => Ok(KeyPair { sec_key: secret, pub_key: public }),
        }
    }

    /// Makes a key pair of what the random source handed out, held to the
    /// same demands as in `from_parts`. An invalid secret key is reported as
    /// the source's failure.
    pub fn from_sample(secret: [u8; 32], public: [u8; 65]) -> (pair: Result<KeyPair, KeyError>)
        ensures
            match pair {
                Ok(kp) => {
                    &&& verdict(secret@, public@).is_none()
                    &&& kp.secret() == secret@
                    &&& kp.public() == public@
                    &&& kp.wf()
                },
                Err(e) => {
                    &&& verdict(secret@, public@).is_some()
                    &&& e == sampling_error(verdict(secret@, public@).unwrap())
                },
            },
    {
        match KeyPair::from_parts(secret, public) {
            Ok(kp) => Ok(kp),
            Err(KeyError::InvalidSecretKey) => Err(KeyError::EntropyFailure),
            Err(objection) => Err(objection),
        }
    }

    /// Draws a fresh key pair from timing jitter. Whatever the random
    /// source hands back is held to `from_sample`: a pair that comes out has
    /// a valid secret key and the public key derived from it, beginning
    /// with `0x04`; anything else is an error, never a key pair.
    pub fn generate() -> (pair: Result<KeyPair, KeyError>)
        ensures
            pair matches Ok(kp) ==> kp.wf(),
            pair matches Err(e) ==> e != KeyError::InvalidSecretKey,
    {
        let (secret, public) = sample_key_pair();
        KeyPair::from_sample(secret, public)
    }

    /// The secret key's bytes.
    pub fn secret_key_bytes(&self) -> (bytes: [u8; 32])
        ensures
            bytes@ == self.secret(),
            self.wf(),
    {
        proof {
            use_type_invariant(self);
        }
        self.sec_key
    }

    /// The uncompressed public key's bytes: `0x04`, X, Y.
    pub fn public_key_bytes(&self) -> (bytes: [u8; 65])
        ensures
            bytes@ == self.public(),
            bytes@[0] == UNCOMPRESSED_PREFIX,
            self.wf(),
    {
        proof {
            use_type_invariant(self);
        }
        self.pub_key
    }

    /// The secret key as lower-case hexadecimal text.
    pub fn node_secret_key(&self) -> (text: String)
        ensures
            text@ == hex_lower(self.secret()),
            text@.len() == 2 * SECRET_KEY_SIZE,
            hex_bytes(text@) == Some(self.secret()),
    {
        proof {
            use_type_invariant(self);
            lemma_hex_round_trip(self.secret());
        }
        hex_encode(self.sec_key.as_slice())
    }

    /// The public key's coordinates: the uncompressed form without its
    /// `0x04` prefix, 64 bytes.
    pub fn node_public_key_bytes(&self) -> (bytes: Vec<u8>)
        ensures
            bytes@ == coordinates(self.public()),
            bytes@.len() == 64,
            seq![UNCOMPRESSED_PREFIX] + bytes@ == self.public(),
    {
        proof {
            use_type_invariant(self);
            KeyPair::lemma_prefix(*self);
        }
        slice_to_vec(slice_subrange(self.pub_key.as_slice(), 1, 65))
    }

    /// The public key's coordinates as lower-case hexadecimal text.
    pub fn node_public_key(&self) -> (text: String)
        ensures
            text@ == hex_lower(coordinates(self.public())),
            text@.len() == 128,
            hex_bytes(text@) == Some(coordinates(self.public())),
    {
        proof {
            lemma_hex_round_trip(coordinates(self.public()));
        }
        let bytes = self.node_public_key_bytes();
        hex_encode(bytes.as_slice())
    }

    /// The public key in the curve library's standard text.
    pub fn account_public_key(&self) -> (text: String)
        ensures
            public_key_text(self.public()) == Some(text@),
    {
        proof {
            use_type_invariant(self);
        }
        match render_public_key(&self.pub_key) {
            Some(text) => text,
            None => String::new(),
        }
    }

    /// The address of the public key: the last twenty bytes of the
    /// Keccak-256 digest of its coordinates.
    pub fn address(&self) -> (address: Address)
        ensures
            address@ == address_of(self.public()),
            address@.len() == ADDRESS_SIZE,
    {
        let coordinates = self.node_public_key_bytes();
        let digest = keccak256(coordinates.as_slice());
        Address::from_digest(&digest)
    }

    /// The uncompressed public key of every key pair begins with `0x04`, and
    /// putting that byte before the coordinates gives the key back.
    pub proof fn lemma_prefix(pair: KeyPair)
        requires
            pair.wf(),
        ensures
            pair.public()[0] == UNCOMPRESSED_PREFIX,
            seq![UNCOMPRESSED_PREFIX] + coordinates(pair.public()) == pair.public(),
    {
        assert((seq![UNCOMPRESSED_PREFIX] + coordinates(pair.public())) =~= pair.public());
    }

    /// Both hexadecimal renderings decode to the bytes they were made from:
    /// the secret key's text to the secret key, the node key's text to the
    /// public key's coordinates.
    pub proof fn lemma_renderings_round_trip(pair: KeyPair)
        requires
            pair.wf(),
        ensures
            hex_bytes(hex_lower(pair.secret())) == Some(pair.secret()),
            hex_bytes(hex_lower(coordinates(pair.public()))) == Some(coordinates(pair.public())),
    {
        lemma_hex_round_trip(pair.secret());
        lemma_hex_round_trip(coordinates(pair.public()));
    }

    /// The address depends on the public key alone: two key pairs with the
    /// same public key have the same address.
    pub proof fn lemma_address_deterministic(a: KeyPair, b: KeyPair)
        requires
            a.public() == b.public(),
        ensures
            address_of(a.public()) == address_of(b.public()),
    {
    }
}

} // verus!
