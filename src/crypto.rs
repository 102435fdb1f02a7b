//! Cryptographic primitives: authenticated encryption, HMAC, random bytes,
//! key derivation and X25519 key agreement, all computed by ring.
use vstd::prelude::*;
use ring::{aead, agreement, hkdf, hmac};
use ring::rand::SecureRandom;

verus! {

/// Largest plaintext ring seals with both AES-256-GCM and
/// ChaCha20-Poly1305 (the AES-GCM limit, the smaller of the two).
pub const MAX_AEAD_INPUT: u64 = 68_719_476_704;

/// Largest input handed to a hash; ring refuses longer ones.
pub const MAX_HASH_INPUT: u64 = 0x1000_0000_0000_0000;

#[derive(Debug, Clone, Copy, PartialEq, Eq, Structural)]
pub enum EncryptionAlgorithm {
    AES128,
    AES256,
    ChaCha20Poly1305,
}

#[derive(Debug, Clone, Copy, PartialEq, Eq, Structural)]
pub enum HashAlgorithm {
    SHA256,
    SHA384,
    SHA512,
}

#[derive(Debug, Clone, Copy, PartialEq, Eq, Structural)]
pub enum DHGroup {
    /// 2048-bit MODP.
    Group14,
    /// 256-bit random ECP.
    Group19,
    /// 384-bit random ECP.
    Group20,
}

/// Errors of key agreement and tunnels.
#[derive(Debug)]
pub enum IKEError {
    Crypto(String),
    Protocol(String),
    AuthenticationFailed,
    Network(String),
    Configuration(String),
    IO(String),
}

#[verifier::external_type_specification]
#[verifier::external_body]
pub struct ExEphemeralPrivateKey(agreement::EphemeralPrivateKey);

/// Code of an AEAD cipher in the names below: 1 AES-256-GCM, 2 ChaCha20-Poly1305.
pub open spec fn cipher_code(a: EncryptionAlgorithm) -> nat {
    match a {
        EncryptionAlgorithm::AES128 => 0,
        EncryptionAlgorithm::AES256 => 1,
        EncryptionAlgorithm::ChaCha20Poly1305 => 2,
    }
}

/// Code of a hash in the names below: 1 SHA-256, 2 SHA-384, 3 SHA-512.
pub open spec fn hash_code(h: HashAlgorithm) -> nat {
    match h {
        HashAlgorithm::SHA256 => 1,
        HashAlgorithm::SHA384 => 2,
        HashAlgorithm::SHA512 => 3,
    }
}

pub open spec fn hash_len(h: HashAlgorithm) -> nat {
    match h {
        HashAlgorithm::SHA256 => 32,
        HashAlgorithm::SHA384 => 48,
        HashAlgorithm::SHA512 => 64,
    }
}

/// Ciphertext followed by tag of `plaintext` sealed under `key` and `nonce`
/// with empty associated data.
pub uninterp spec fn aead_sealed(cipher: nat, key: Seq<u8>, nonce: Seq<u8>, plaintext: Seq<u8>) -> Seq<u8>;

/// HMAC of `data` under `key`.
pub uninterp spec fn hmac_tag(hash: nat, key: Seq<u8>, data: Seq<u8>) -> Seq<u8>;

/// The 32 bytes HKDF-SHA256 derives from `secret` with an empty salt and
/// `label` as info.
pub uninterp spec fn hkdf_sha256(secret: Seq<u8>, label: Seq<u8>) -> Seq<u8>;

/// What opening `ciphertext` may give: the plaintext that seals to it, and
/// nothing when no plaintext does.
pub open spec fn opened(cipher: nat, key: Seq<u8>, nonce: Seq<u8>, ciphertext: Seq<u8>, r: Option<Seq<u8>>) -> bool {
    &&& (r matches Some(p) ==> aead_sealed(cipher, key, nonce, p) == ciphertext)
    &&& forall|p: Seq<u8>| #[trigger] aead_sealed(cipher, key, nonce, p) == ciphertext ==> r == Some(p)
}

/// Relies on ring's `UnboundKey::new`, `Nonce::try_assume_unique_for_key` and
/// `LessSafeKey::seal_in_place_append_tag`: deterministic sealing with a
/// 16-byte tag appended. With a 32-byte key and 12-byte nonce, sealing fails
/// only on input longer than the algorithm's limit.
#[verifier::external_body]
fn ring_seal(alg: EncryptionAlgorithm, key: &[u8], nonce: &[u8], plaintext: &[u8]) -> (r: Option<Vec<u8>>)
    requires
        alg != EncryptionAlgorithm::AES128,
        key@.len() == 32,
        nonce@.len() == 12,
    ensures
        plaintext@.len() <= MAX_AEAD_INPUT ==> r is Some,
        r matches Some(c) ==> c@ == aead_sealed(cipher_code(alg), key@, nonce@, plaintext@)
            && c@.len() == plaintext@.len() + 16,
{
    let algorithm = match alg {
        EncryptionAlgorithm::AES128 => &aead::AES_128_GCM,
        EncryptionAlgorithm::AES256 => &aead::AES_256_GCM,
        EncryptionAlgorithm::ChaCha20Poly1305 => &aead::CHACHA20_POLY1305,
    };
    let key = aead::LessSafeKey::new(aead::UnboundKey::new(algorithm, key).ok()?);
    let nonce = aead::Nonce::try_assume_unique_for_key(nonce).ok()?;
    let mut in_out = plaintext.to_vec();
    key.seal_in_place_append_tag(nonce, aead::Aad::empty(), &mut in_out).ok()?;
    Some(in_out)
}

/// Relies on ring's `LessSafeKey::open_in_place`: it returns the plaintext
/// exactly when the input is its sealing, and fails otherwise.
#[verifier::external_body]
fn ring_open(alg: EncryptionAlgorithm, key: &[u8], nonce: &[u8], ciphertext: &[u8]) -> (r: Option<Vec<u8>>)
    requires
        alg != EncryptionAlgorithm::AES128,
        key@.len() == 32,
        nonce@.len() == 12,
    ensures
        opened(cipher_code(alg), key@, nonce@, ciphertext@, match r { Some(p) => Some(p@), None => None }),
{
    let algorithm = match alg {
        EncryptionAlgorithm::AES128 => &aead::AES_128_GCM,
        EncryptionAlgorithm::AES256 => &aead::AES_256_GCM,
        EncryptionAlgorithm::ChaCha20Poly1305 => &aead::CHACHA20_POLY1305,
    };
    let key = aead::LessSafeKey::new(aead::UnboundKey::new(algorithm, key).ok()?);
    let nonce = aead::Nonce::try_assume_unique_for_key(nonce).ok()?;
    let mut in_out = ciphertext.to_vec();
    let plaintext = key.open_in_place(nonce, aead::Aad::empty(), &mut in_out).ok()?;
    Some(plaintext.to_vec())
}

/// Relies on ring's `hmac::Key::new` and `hmac::sign`: the tag is as long as
/// the hash output.
#[verifier::external_body]
fn ring_hmac_sign(hash: HashAlgorithm, key: &[u8], data: &[u8]) -> (r: Vec<u8>)
    requires
        data@.len() < MAX_HASH_INPUT,
    ensures
        r@ == hmac_tag(hash_code(hash), key@, data@),
        r@.len() == hash_len(hash),
{
    let algorithm = match hash {
        HashAlgorithm::SHA256 => hmac::HMAC_SHA256,
        HashAlgorithm::SHA384 => hmac::HMAC_SHA384,
        HashAlgorithm::SHA512 => hmac::HMAC_SHA512,
    };
    hmac::sign(&hmac::Key::new(algorithm, key), data).as_ref().to_vec()
}

/// Relies on ring's `hmac::verify`: succeeds exactly when `tag` equals the
/// HMAC of `data`.
#[verifier::external_body]
fn ring_hmac_verify(hash: HashAlgorithm, key: &[u8], data: &[u8], tag: &[u8]) -> (r: bool)
    requires
        data@.len() < MAX_HASH_INPUT,
    ensures
        r == (hmac_tag(hash_code(hash), key@, data@) == tag@),
{
    let algorithm = match hash {
        HashAlgorithm::SHA256 => hmac::HMAC_SHA256,
        HashAlgorithm::SHA384 => hmac::HMAC_SHA384,
        HashAlgorithm::SHA512 => hmac::HMAC_SHA512,
    };
    hmac::verify(&hmac::Key::new(algorithm, key), data, tag).is_ok()
}

/// Relies on ring's `SystemRandom::fill`: `len` bytes from the operating
/// system's secure generator. Nothing is promised of their values.
#[verifier::external_body]
fn ring_random(len: usize) -> (r: Option<Vec<u8>>)
    ensures
        r matches Some(v) ==> v@.len() == len,
{
    let mut out = vec![0u8; len];
    ring::rand::SystemRandom::new().fill(&mut out).ok()?;
    Some(out)
}

/// Relies on ring's `hkdf::Salt::extract`, `Prk::expand` and `Okm::fill`:
/// HKDF-SHA256 with an empty salt, 32 bytes of output. Expanding to the
/// hash's own length and filling exactly that many bytes cannot fail.
#[verifier::external_body]
fn ring_hkdf(secret: &[u8], label: &[u8]) -> (r: Option<Vec<u8>>)
    ensures
        r is Some,
        r matches Some(k) ==> k@ == hkdf_sha256(secret@, label@) && k@.len() == 32,
{
    let prk = hkdf::Salt::new(hkdf::HKDF_SHA256, &[]).extract(secret);
    let info = [label];
    let okm = prk.expand(&info, hkdf::HKDF_SHA256).ok()?;
    let mut out = vec![0u8; 32];
    okm.fill(&mut out).ok()?;
    Some(out)
}

/// Relies on ring's `EphemeralPrivateKey::generate` and `compute_public_key`
/// for X25519: a fresh private key and its 32-byte public key.
#[verifier::external_body]
pub(crate) fn x25519_keypair() -> (r: Option<(agreement::EphemeralPrivateKey, Vec<u8>)>)
    ensures
        r matches Some((_, public)) ==> public@.len() == 32,
{
    let rng = ring::rand::SystemRandom::new();
    let private = agreement::EphemeralPrivateKey::generate(&agreement::X25519, &rng).ok()?;
    let public = private.compute_public_key().ok()?.as_ref().to_vec();
    Some((private, public))
}

/// Relies on ring's `agree_ephemeral` for X25519: the 32-byte shared secret,
/// or nothing when the peer's public key is refused.
#[verifier::external_body]
pub(crate) fn x25519_agree(private: agreement::EphemeralPrivateKey, peer_public: &[u8]) -> (r: Option<Vec<u8>>)
    ensures
        r matches Some(s) ==> s@.len() == 32,
{
    let peer = agreement::UnparsedPublicKey::new(&agreement::X25519, peer_public);
    agreement::agree_ephemeral(private, &peer, |secret: &[u8]| bytes_of(secret)).ok()
}

/// The bytes of `s`, in a vector of their own.
pub fn bytes_of(s: &[u8]) -> (r: Vec<u8>)
    ensures
        r@ == s@,
{
    let mut r: Vec<u8> = Vec::new();
    let mut i: usize = 0;
    while i < s.len()
        invariant
            i <= s@.len(),
            r@ == s@.subrange(0, i as int),
        decreases s.len() - i,
    {
        r.push(s[i]);
        assert(r@ =~= s@.subrange(0, i + 1));
        i += 1;
    }
    assert(s@.subrange(0, s@.len() as int) =~= s@);
    r
}

/// Random bytes from the system's secure generator.
pub fn rand_bytes(len: usize) -> (r: Result<Vec<u8>, IKEError>)
    ensures
        r matches Ok(v) ==> v@.len() == len,
        r matches Err(e) ==> e is Crypto,
{
    match ring_random(len) {
        Some(v) => Ok(v),
        None => Err(IKEError::Crypto(String::from_str("random generation failed"))),
    }
}

/// Derives 32 bytes of key from `material` for `label` with HKDF-SHA256.
pub fn kdf(material: &[u8], label: &[u8]) -> (r: Result<Vec<u8>, IKEError>)
    ensures
        r matches Ok(k) && k@ == hkdf_sha256(material@, label@) && k@.len() == 32,
{
    match ring_hkdf(material, label) {
        Some(k) => Ok(k),
        None => Err(IKEError::Crypto(String::from_str("key derivation failed"))),
    }
}

/// Whether an algorithm choice, key and nonce can be used for sealing.
pub open spec fn aead_usable(alg: EncryptionAlgorithm, key: Seq<u8>, nonce: Seq<u8>) -> bool {
    alg != EncryptionAlgorithm::AES128 && key.len() == 32 && nonce.len() == 12
}

/// The algorithms used by the key-agreement layer.
#[derive(Debug, Clone, Copy)]
pub struct IKECrypto {
    pub encryption_algorithm: EncryptionAlgorithm,
    pub hash_algorithm: HashAlgorithm,
    pub dh_group: DHGroup,
}

impl IKECrypto {
    /// AES-256-GCM, SHA-256, DH group 19 (X25519, the group key agreement computes).
    pub fn new() -> (r: IKECrypto)
        ensures
            r.encryption_algorithm == EncryptionAlgorithm::AES256,
            r.hash_algorithm == HashAlgorithm::SHA256,
            r.dh_group == DHGroup::Group19,
    {
        IKECrypto {
            encryption_algorithm: EncryptionAlgorithm::AES256,
            hash_algorithm: HashAlgorithm::SHA256,
            dh_group: DHGroup::Group19,
        }
    }

    /// Seals `plaintext`. AES-128 is not offered; the key must be 32 bytes
    /// and the nonce 12; each of these fails with a crypto error, as does a
    /// plaintext over the algorithm's limit.
    pub fn encrypt(&self, key: &[u8], plaintext: &[u8], nonce: &[u8]) -> (r: Result<Vec<u8>, IKEError>)
        ensures
            !aead_usable(self.encryption_algorithm, key@, nonce@) ==> r is Err,
            aead_usable(self.encryption_algorithm, key@, nonce@) && plaintext@.len() <= MAX_AEAD_INPUT ==> r is Ok,
            r matches Ok(c) ==> c@ == aead_sealed(cipher_code(self.encryption_algorithm), key@, nonce@, plaintext@)
                && c@.len() == plaintext@.len() + 16,
            r matches Err(e) ==> e is Crypto,
    {
        match self.encryption_algorithm {
            EncryptionAlgorithm::AES128 => Err(IKEError::Crypto(String::from_str("unsupported encryption algorithm"))),
            _ => {
                if key.len() != 32 {
                    return Err(IKEError::Crypto(String::from_str("invalid key size")));
                }
                if nonce.len() != 12 {
                    return Err(IKEError::Crypto(String::from_str("invalid nonce")));
                }
                match ring_seal(self.encryption_algorithm, key, nonce, plaintext) {
                    Some(c) => Ok(c),
                    None => Err(IKEError::Crypto(String::from_str("encryption failed"))),
                }
            },
        }
    }

    /// Opens `ciphertext` (ciphertext followed by tag). Fails with a crypto
    /// error on an unusable algorithm, key or nonce, and on any input that is
    /// not the sealing of some plaintext under this key and nonce.
    pub fn decrypt(&self, key: &[u8], ciphertext: &[u8], nonce: &[u8]) -> (r: Result<Vec<u8>, IKEError>)
        ensures
            !aead_usable(self.encryption_algorithm, key@, nonce@) ==> r is Err,
            aead_usable(self.encryption_algorithm, key@, nonce@) ==> opened(
                cipher_code(self.encryption_algorithm), key@, nonce@, ciphertext@,
                match r { Ok(p) => Some(p@), Err(_) => None },
            ),
            r matches Err(e) ==> e is Crypto,
    {
        match self.encryption_algorithm {
            EncryptionAlgorithm::AES128 => Err(IKEError::Crypto(String::from_str("unsupported encryption algorithm"))),
            _ => {
                if key.len() != 32 {
                    return Err(IKEError::Crypto(String::from_str("invalid key size")));
                }
                if nonce.len() != 12 {
                    return Err(IKEError::Crypto(String::from_str("invalid nonce")));
                }
                match ring_open(self.encryption_algorithm, key, nonce, ciphertext) {
                    Some(p) => Ok(p),
                    None => Err(IKEError::Crypto(String::from_str("decryption failed"))),
                }
            },
        }
    }

    /// `size` random bytes.
    pub fn generate_nonce(&self, size: usize) -> (r: Result<Vec<u8>, IKEError>)
        ensures
            r matches Ok(v) ==> v@.len() == size,
            r matches Err(e) ==> e is Crypto,
    {
        rand_bytes(size)
    }

    /// HMAC of `data` under `key` with the configured hash.
    pub fn hmac_sign(&self, key: &[u8], data: &[u8]) -> (r: Result<Vec<u8>, IKEError>)
        requires
            data@.len() < MAX_HASH_INPUT,
        ensures
            r matches Ok(t) && t@ == hmac_tag(hash_code(self.hash_algorithm), key@, data@)
                && t@.len() == hash_len(self.hash_algorithm),
    {
        Ok(ring_hmac_sign(self.hash_algorithm, key, data))
    }

    /// Whether `signature` is the HMAC of `data` under `key`.
    pub fn hmac_verify(&self, key: &[u8], data: &[u8], signature: &[u8]) -> (r: Result<bool, IKEError>)
        requires
            data@.len() < MAX_HASH_INPUT,
        ensures
            r matches Ok(b) && b == (hmac_tag(hash_code(self.hash_algorithm), key@, data@) == signature@),
    {
        Ok(ring_hmac_verify(self.hash_algorithm, key, data, signature))
    }
}

/// Opening what was sealed under the same key and nonce gives back the
/// plaintext; an input that is no sealing under them is refused.
pub proof fn lemma_open_inverts_seal(cipher: nat, key: Seq<u8>, nonce: Seq<u8>, plaintext: Seq<u8>, r: Option<Seq<u8>>)
    requires
        opened(cipher, key, nonce, aead_sealed(cipher, key, nonce, plaintext), r),
    ensures
        r == Some(plaintext),
{
}

/// An input that seals no plaintext under the key and nonce is refused.
pub proof fn lemma_open_refuses_forgery(cipher: nat, key: Seq<u8>, nonce: Seq<u8>, ciphertext: Seq<u8>, r: Option<Seq<u8>>)
    requires
        opened(cipher, key, nonce, ciphertext, r),
        forall|p: Seq<u8>| #[trigger] aead_sealed(cipher, key, nonce, p) != ciphertext,
    ensures
        r is None,
{
}

} // verus!
