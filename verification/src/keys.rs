//! Key material: private, public and preshared keys. Each is 32 raw bytes
//! with a base64 text form; a public key can be derived from a private key
//! through the curve's scalar multiplication.

use vstd::prelude::*;

use crate::b64::{b64_decode, b64_encode, b64_encode_spec, lemma_b64_encode_injective};
use crate::error::WireguardError;

verus! {

/// What the curve's scalar multiplication with the base point returns for a
/// 32-byte secret. A function of the secret bytes alone.
pub uninterp spec fn x25519_base_mult(secret: Seq<u8>) -> Seq<u8>;

/// Relies on x25519_dalek: the public key of a static secret is scalar
/// multiplication of the clamped secret bytes with the curve base point — a
/// function of the 32 secret bytes alone — and is itself 32 bytes.
#[verifier::external_body]
fn derive_public_bytes(secret: &Vec<u8>) -> (r: Vec<u8>)
    requires
        secret@.len() == 32,
    ensures
        r@ == x25519_base_mult(secret@),
        r@.len() == 32,
{
    let mut arr = [0u8; 32];
    arr.copy_from_slice(&secret[..]);
    let public = x25519_dalek::PublicKey::from(&x25519_dalek::StaticSecret::from(arr));
    public.to_bytes().to_vec()
}

/// Relies on x25519_dalek::StaticSecret::random: 32 bytes drawn from the
/// operating system's CSPRNG. Nothing is assumed of their values.
#[verifier::external_body]
fn random_secret_bytes() -> (r: Vec<u8>)
    ensures
        r@.len() == 32,
{
    x25519_dalek::StaticSecret::random().to_bytes().to_vec()
}

/// Relies on rand::fill with the thread-local CSPRNG: fills the buffer with
/// random bytes. Nothing is assumed of their values.
#[verifier::external_body]
fn random_bytes_32() -> (r: Vec<u8>)
    ensures
        r@.len() == 32,
{
    let mut key = [0u8; 32];
    rand::fill(&mut key[..]);
    key.to_vec()
}

/// Byte-for-byte equality of two byte vectors.
fn bytes_eq(a: &Vec<u8>, b: &Vec<u8>) -> (r: bool)
    ensures
        r == (a@ == b@),
{
    if a.len() != b.len() {
        return false;
    }
    let mut i: usize = 0;
    while i < a.len()
        invariant
            i <= a.len(),
            a@.len() == b@.len(),
            forall|j: int| 0 <= j < i ==> a@[j] == b@[j],
        decreases a.len() - i,
    {
        if a[i] != b[i] {
            return false;
        }
        i = i + 1;
    }
    proof {
        assert(a@ =~= b@);
    }
    true
}

/// A private key: a 32-byte scalar for the protocol's key agreement.
/// Its buffer is overwritten when the value is dropped.
#[derive(Debug)]
pub struct PrivateKey {
    bytes: Vec<u8>,
}

impl View for PrivateKey {
    type V = Seq<u8>;

    closed spec fn view(&self) -> Seq<u8> {
        self.bytes@
    }
}

impl PrivateKey {
    /// Well-formed: exactly 32 bytes.
    pub open spec fn wf(self) -> bool {
        self@.len() == 32
    }

    /// Generates a fresh random private key. Cannot fail.
    pub fn random() -> (r: PrivateKey)
        ensures
            r.wf(),
    {
        PrivateKey { bytes: random_secret_bytes() }
    }

    /// The base64 text form of the key's raw bytes.
    pub fn to_base64(&self) -> (r: String)
        ensures
            r@ == b64_encode_spec(self@),
    {
        b64_encode(&self.bytes)
    }

    /// Decodes a private key from base64 text. Returns the key exactly when
    /// the text is the encoding of 32 bytes; any other text gives
    /// `InvalidPrivateKey`.
    pub fn try_from(value: String) -> (r: Result<PrivateKey, WireguardError>)
        ensures
            match r {
                Ok(k) => k.wf() && value@ == b64_encode_spec(k@),
                Err(e) => e == WireguardError::InvalidPrivateKey && forall|bs: Seq<u8>|
                    bs.len() == 32 ==> value@ != b64_encode_spec(bs),
            },
    {
        match b64_decode(value.as_str()) {
            Some(bytes) => {
                if bytes.len() == 32 {
                    Ok(PrivateKey { bytes })
                } else {
                    proof {
                        assert forall|bs: Seq<u8>| bs.len() == 32 implies value@
                            != b64_encode_spec(bs) by {
                            if value@ == b64_encode_spec(bs) {
                                lemma_b64_encode_injective(bs, bytes@);
                            }
                        }
                    }
                    Err(WireguardError::InvalidPrivateKey)
                }
            },
            None => Err(WireguardError::InvalidPrivateKey),
        }
    }
}

impl Clone for PrivateKey {
    /// Cloning keeps the key bytes.
    fn clone(&self) -> (r: Self)
        ensures
            r@ == self@,
    {
        PrivateKey { bytes: vstd::slice::slice_to_vec(self.bytes.as_slice()) }
    }
}

impl PartialEq for PrivateKey {
    fn eq(&self, other: &Self) -> (r: bool) {
        bytes_eq(&self.bytes, &other.bytes)
    }
}

impl vstd::std_specs::cmp::PartialEqSpecImpl for PrivateKey {
    open spec fn obeys_eq_spec() -> bool {
        true
    }

    open spec fn eq_spec(&self, other: &Self) -> bool {
        self@ == other@
    }
}

/// Relies on zeroize: overwrites the secret buffer before it is freed.
impl Drop for PrivateKey {
    #[verifier::external_body]
    fn drop(&mut self)
        opens_invariants none
        no_unwind
    {
        zeroize::Zeroize::zeroize(&mut self.bytes);
    }
}

/// A public key: the 32-byte value derived from a private key, or a remote
/// peer's identity received verbatim.
#[derive(Debug)]
pub struct PublicKey {
    bytes: Vec<u8>,
}

impl View for PublicKey {
    type V = Seq<u8>;

    closed spec fn view(&self) -> Seq<u8> {
        self.bytes@
    }
}

impl PublicKey {
    /// Well-formed: exactly 32 bytes.
    pub open spec fn wf(self) -> bool {
        self@.len() == 32
    }

    /// Derives the public key of a private key: scalar multiplication with
    /// the curve base point, a pure function of the key bytes. Cannot fail.
    pub fn from(value: &PrivateKey) -> (r: PublicKey)
        requires
            value.wf(),
        ensures
            r.wf(),
            r@ == x25519_base_mult(value@),
    {
        PublicKey { bytes: derive_public_bytes(&value.bytes) }
    }

    /// The base64 text form of the key's raw bytes.
    pub fn to_base64(&self) -> (r: String)
        ensures
            r@ == b64_encode_spec(self@),
    {
        b64_encode(&self.bytes)
    }

    /// Decodes a public key from base64 text. Returns the key exactly when
    /// the text is the encoding of 32 bytes; any other text gives
    /// `InvalidPublicKey`.
    pub fn try_from(value: String) -> (r: Result<PublicKey, WireguardError>)
        ensures
            match r {
                Ok(k) => k.wf() && value@ == b64_encode_spec(k@),
                Err(e) => e == WireguardError::InvalidPublicKey && forall|bs: Seq<u8>|
                    bs.len() == 32 ==> value@ != b64_encode_spec(bs),
            },
    {
        match b64_decode(value.as_str()) {
            Some(bytes) => {
                if bytes.len() == 32 {
                    Ok(PublicKey { bytes })
                } else {
                    proof {
                        assert forall|bs: Seq<u8>| bs.len() == 32 implies value@
                            != b64_encode_spec(bs) by {
                            if value@ == b64_encode_spec(bs) {
                                lemma_b64_encode_injective(bs, bytes@);
                            }
                        }
                    }
                    Err(WireguardError::InvalidPublicKey)
                }
            },
            None => Err(WireguardError::InvalidPublicKey),
        }
    }
}

impl Clone for PublicKey {
    /// Cloning keeps the key bytes.
    fn clone(&self) -> (r: Self)
        ensures
            r@ == self@,
    {
        PublicKey { bytes: vstd::slice::slice_to_vec(self.bytes.as_slice()) }
    }
}

impl PartialEq for PublicKey {
    fn eq(&self, other: &Self) -> (r: bool) {
        bytes_eq(&self.bytes, &other.bytes)
    }
}

impl vstd::std_specs::cmp::PartialEqSpecImpl for PublicKey {
    open spec fn obeys_eq_spec() -> bool {
        true
    }

    open spec fn eq_spec(&self, other: &Self) -> bool {
        self@ == other@
    }
}

/// A preshared key: an independent 32-byte symmetric secret.
/// Its buffer is overwritten when the value is dropped.
#[derive(Debug)]
pub struct PresharedKey {
    bytes: Vec<u8>,
}

impl View for PresharedKey {
    type V = Seq<u8>;

    closed spec fn view(&self) -> Seq<u8> {
        self.bytes@
    }
}

impl PresharedKey {
    /// Well-formed: exactly 32 bytes.
    pub open spec fn wf(self) -> bool {
        self@.len() == 32
    }

    /// Generates a fresh random preshared key. Cannot fail.
    pub fn random() -> (r: PresharedKey)
        ensures
            r.wf(),
    {
        PresharedKey { bytes: random_bytes_32() }
    }

    /// The raw bytes of the key.
    pub fn as_bytes(&self) -> (r: &[u8])
        ensures
            r@ == self@,
    {
        self.bytes.as_slice()
    }

    /// The base64 text form of the key's raw bytes.
    pub fn to_base64(&self) -> (r: String)
        ensures
            r@ == b64_encode_spec(self@),
    {
        b64_encode(&self.bytes)
    }

    /// Decodes a preshared key from base64 text, ignoring surrounding
    /// whitespace. Returns the key exactly when the trimmed text is the
    /// encoding of 32 bytes; any other text gives `InvalidPresharedKey`.
    pub fn try_from(value: String) -> (r: Result<PresharedKey, WireguardError>)
        ensures
            match r {
                Ok(k) => k.wf() && crate::text::trim_spec(value@) == b64_encode_spec(k@),
                Err(e) => e == WireguardError::InvalidPresharedKey && forall|bs: Seq<u8>|
                    bs.len() == 32 ==> crate::text::trim_spec(value@) != b64_encode_spec(bs),
            },
    {
        let trimmed = crate::text::trim(value.as_str());
        match b64_decode(trimmed) {
            Some(bytes) => {
                if bytes.len() == 32 {
                    Ok(PresharedKey { bytes })
                } else {
                    proof {
                        assert forall|bs: Seq<u8>| bs.len() == 32 implies crate::text::trim_spec(
                            value@,
                        ) != b64_encode_spec(bs) by {
                            if crate::text::trim_spec(value@) == b64_encode_spec(bs) {
                                lemma_b64_encode_injective(bs, bytes@);
                            }
                        }
                    }
                    Err(WireguardError::InvalidPresharedKey)
                }
            },
            None => Err(WireguardError::InvalidPresharedKey),
        }
    }
}

impl Clone for PresharedKey {
    /// Cloning keeps the key bytes.
    fn clone(&self) -> (r: Self)
        ensures
            r@ == self@,
    {
        PresharedKey { bytes: vstd::slice::slice_to_vec(self.bytes.as_slice()) }
    }
}

impl PartialEq for PresharedKey {
    fn eq(&self, other: &Self) -> (r: bool) {
        bytes_eq(&self.bytes, &other.bytes)
    }
}

impl vstd::std_specs::cmp::PartialEqSpecImpl for PresharedKey {
    open spec fn obeys_eq_spec() -> bool {
        true
    }

    open spec fn eq_spec(&self, other: &Self) -> bool {
        self@ == other@
    }
}

/// Relies on zeroize: overwrites the secret buffer before it is freed.
impl Drop for PresharedKey {
    #[verifier::external_body]
    fn drop(&mut self)
        opens_invariants none
        no_unwind
    {
        zeroize::Zeroize::zeroize(&mut self.bytes);
    }
}

/// The key a peer record holds: its private key, or — when only the remote
/// identity is known — its public key.
#[derive(Debug, PartialEq)]
pub enum Key {
    Private(PrivateKey),
    Public(PublicKey),
}

/// The mathematical value of a `Key`: which variant, and its bytes.
pub enum KeyView {
    Private(Seq<u8>),
    Public(Seq<u8>),
}

impl KeyView {
    /// Well-formed: the held bytes are exactly 32.
    pub open spec fn wf(self) -> bool {
        match self {
            KeyView::Private(bs) => bs.len() == 32,
            KeyView::Public(bs) => bs.len() == 32,
        }
    }

    /// The bytes of the public key this key presents to the outside: a
    /// public key's own bytes, or the bytes derived from a private key.
    pub open spec fn public_bytes(self) -> Seq<u8> {
        match self {
            KeyView::Private(bs) => x25519_base_mult(bs),
            KeyView::Public(bs) => bs,
        }
    }
}

impl View for Key {
    type V = KeyView;

    open spec fn view(&self) -> KeyView {
        match self {
            Key::Private(k) => KeyView::Private(k@),
            Key::Public(k) => KeyView::Public(k@),
        }
    }
}

impl Key {
    /// Well-formed: the held key is well formed.
    pub open spec fn wf(self) -> bool {
        match self {
            Key::Private(k) => k.wf(),
            Key::Public(k) => k.wf(),
        }
    }
}

impl Clone for Key {
    /// Cloning keeps the variant and the key bytes.
    fn clone(&self) -> (r: Self)
        ensures
            r@ == self@,
    {
        match self {
            Key::Private(k) => Key::Private(k.clone()),
            Key::Public(k) => Key::Public(k.clone()),
        }
    }
}

/// Law: decoding the encoded bytes of a private key gives back exactly those
/// bytes — any outcome of `try_from` on the encoding of a well-formed key is
/// `Ok` with the same bytes.
pub proof fn lemma_private_key_round_trip(
    k: PrivateKey,
    text: String,
    r: Result<PrivateKey, WireguardError>,
)
    requires
        k.wf(),
        text@ == b64_encode_spec(k@),
        call_ensures(PrivateKey::try_from, (text,), r),
    ensures
        r matches Ok(k2) && k2@ == k@,
{
    match r {
        Ok(k2) => {
            lemma_b64_encode_injective(k2@, k@);
        },
        Err(_) => {
            assert(false);
        },
    }
}

/// Law: decoding the encoded bytes of a public key gives back exactly those
/// bytes.
pub proof fn lemma_public_key_round_trip(
    k: PublicKey,
    text: String,
    r: Result<PublicKey, WireguardError>,
)
    requires
        k.wf(),
        text@ == b64_encode_spec(k@),
        call_ensures(PublicKey::try_from, (text,), r),
    ensures
        r matches Ok(k2) && k2@ == k@,
{
    match r {
        Ok(k2) => {
            lemma_b64_encode_injective(k2@, k@);
        },
        Err(_) => {
            assert(false);
        },
    }
}

/// Law: decoding the encoded bytes of a preshared key gives back exactly
/// those bytes. The encoding holds no whitespace to trim: it is the encoding
/// of the key's own 32 bytes, and decoding that text returns them.
pub proof fn lemma_preshared_key_round_trip(
    k: PresharedKey,
    text: String,
    r: Result<PresharedKey, WireguardError>,
)
    requires
        k.wf(),
        text@ == b64_encode_spec(k@),
        call_ensures(PresharedKey::try_from, (text,), r),
    ensures
        r matches Ok(k2) && k2@ == k@,
{
    assert forall|i: int| 0 <= i < text@.len() implies !crate::text::is_space(text@[i]) by {
        crate::b64::lemma_b64_not_space(k@, i);
    }
    crate::text::lemma_trim_id(text@);
    match r {
        Ok(k2) => {
            lemma_b64_encode_injective(k2@, k@);
        },
        Err(_) => {
            assert(false);
        },
    }
}

/// Law: deriving the public key is deterministic — two derivations from the
/// same private key agree.
pub proof fn lemma_derive_public_deterministic(k: PrivateKey, p1: PublicKey, p2: PublicKey)
    requires
        call_ensures(PublicKey::from, (&k,), p1),
        call_ensures(PublicKey::from, (&k,), p2),
    ensures
        p1@ == p2@,
{
}

} // verus!
