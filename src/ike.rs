//! Key-agreement session: a two-phase exchange that authenticates both ends
//! with a pre-shared key and yields the keys of an encrypted tunnel.
//!
//! Phase 1 (SA_INIT) trades proposals, X25519 public values and nonces; both
//! ends derive the shared secret and, from it, `enc` and `auth` keys with
//! HKDF-SHA256. Phase 2 (AUTH) has each end send
//! HMAC-SHA256(psk, secret || own nonce || peer nonce).
use vstd::prelude::*;
use ring::agreement::EphemeralPrivateKey;
use crate::addr::SocketAddress;
use crate::crypto::{IKECrypto, IKEError, aead_sealed, opened, MAX_AEAD_INPUT, hkdf_sha256, hmac_tag, kdf, rand_bytes, x25519_agree, x25519_keypair, MAX_HASH_INPUT};
use crate::rib::copy_vec;

verus! {

pub const NONCE_SIZE: usize = 32;
/// The key-exchange group: X25519, announced as DH group 19.
pub const DH_GROUP: u8 = 19;
pub const IKE_VERSION: u8 = 0x20;
pub const FLAG_INITIATOR: u8 = 0x08;
pub const FLAG_RESPONSE: u8 = 0x20;
/// Authentication method: shared key.
pub const AUTH_METHOD_PSK: u8 = 2;

/// Transform types and identifiers of the offered proposals.
pub const TRANSFORM_ENCR: u8 = 1;
pub const TRANSFORM_PRF: u8 = 2;
pub const TRANSFORM_INTEG: u8 = 3;
pub const TRANSFORM_DH: u8 = 4;
pub const ENCR_AES_256_GCM: u16 = 20;
pub const ENCR_CHACHA20_POLY1305: u16 = 28;
pub const PRF_HMAC_SHA256: u16 = 5;
pub const INTEG_HMAC_SHA256_128: u16 = 12;

#[derive(Debug, Clone, Copy, PartialEq, Eq, Structural)]
pub enum IKEState {
    Initial,
    SaInit,
    Auth,
    Established,
    Rekeying,
    Deleted,
}

#[derive(Debug, Clone, Copy, PartialEq, Eq, Structural)]
pub enum ExchangeType {
    IkeSaInit,
    IkeAuth,
    CreateChildSa,
    Informational,
}

#[derive(Debug)]
pub struct TransformAttribute {
    pub attribute_type: u16,
    pub attribute_value: Vec<u8>,
}

#[derive(Debug)]
pub struct Transform {
    pub transform_type: u8,
    pub transform_id: u16,
    pub attributes: Vec<TransformAttribute>,
}

#[derive(Debug)]
pub struct SAProposal {
    pub proposal_num: u8,
    pub protocol_id: u8,
    pub spi: Vec<u8>,
    pub transforms: Vec<Transform>,
}

#[derive(Debug)]
pub struct SAPayload {
    pub proposals: Vec<SAProposal>,
}

#[derive(Debug)]
pub struct KeyExchangePayload {
    pub dh_group: u16,
    pub key_exchange_data: Vec<u8>,
}

#[derive(Debug)]
pub struct NoncePayload {
    pub nonce_data: Vec<u8>,
}

#[derive(Debug)]
pub struct NotificationPayload {
    pub protocol_id: u8,
    pub spi_size: u8,
    pub notify_message_type: u16,
    pub spi: Vec<u8>,
    pub notification_data: Vec<u8>,
}

#[derive(Debug)]
pub struct AuthPayload {
    pub auth_method: u8,
    pub auth_data: Vec<u8>,
}

#[derive(Debug)]
pub enum IKEPayload {
    SA(SAPayload),
    KeyExchange(KeyExchangePayload),
    Nonce(NoncePayload),
    Notification(NotificationPayload),
    Authentication(AuthPayload),
    Unknown { payload_type: u8, data: Vec<u8> },
}

/// A key-agreement message: header and payloads.
#[derive(Debug)]
pub struct IKEMessage {
    pub initiator_spi: u64,
    pub responder_spi: u64,
    pub next_payload: u8,
    pub version: u8,
    pub exchange_type: ExchangeType,
    pub flags: u8,
    pub message_id: u32,
    pub length: u32,
    pub payloads: Vec<IKEPayload>,
}

/// Kind of a payload: 0 SA, 1 key exchange, 2 nonce, 3 notification,
/// 4 authentication, 5 anything else.
pub open spec fn payload_kind(p: IKEPayload) -> u8 {
    match p {
        IKEPayload::SA(_) => 0,
        IKEPayload::KeyExchange(_) => 1,
        IKEPayload::Nonce(_) => 2,
        IKEPayload::Notification(_) => 3,
        IKEPayload::Authentication(_) => 4,
        IKEPayload::Unknown { .. } => 5,
    }
}

/// Index of the first payload of kind `kind`, counted from `start`.
pub open spec fn first_of_kind(ps: Seq<IKEPayload>, kind: u8, start: int) -> Option<int>
    decreases ps.len() - start,
{
    if start < 0 || start >= ps.len() {
        None
    } else if payload_kind(ps[start]) == kind {
        Some(start)
    } else {
        first_of_kind(ps, kind, start + 1)
    }
}

fn kind_of(p: &IKEPayload) -> (r: u8)
    ensures
        r == payload_kind(*p),
{
    match p {
        IKEPayload::SA(_) => 0,
        IKEPayload::KeyExchange(_) => 1,
        IKEPayload::Nonce(_) => 2,
        IKEPayload::Notification(_) => 3,
        IKEPayload::Authentication(_) => 4,
        IKEPayload::Unknown { .. } => 5,
    }
}

/// Index of the first payload of `kind` in `ps`.
pub fn find_payload(ps: &Vec<IKEPayload>, kind: u8) -> (r: Option<usize>)
    ensures
        r matches Some(i) ==> i < ps@.len(),
        (match r { Some(i) => Some(i as int), None => None }) == first_of_kind(ps@, kind, 0),
{
    let mut i: usize = 0;
    while i < ps.len()
        invariant
            i <= ps@.len(),
            first_of_kind(ps@, kind, 0) == first_of_kind(ps@, kind, i as int),
        decreases ps.len() - i,
    {
        if kind_of(&ps[i]) == kind {
            return Some(i);
        }
        i += 1;
    }
    None
}

/// The nonce carried by a message, if it has a nonce payload.
pub open spec fn message_nonce(ps: Seq<IKEPayload>) -> Option<Seq<u8>> {
    match first_of_kind(ps, 2, 0) {
        Some(i) => match ps[i] {
            IKEPayload::Nonce(n) => Some(n.nonce_data@),
            _ => None,
        },
        None => None,
    }
}

/// The key-exchange data carried by a message, if its first key-exchange
/// payload is of the group this end computes.
pub open spec fn message_public_value(ps: Seq<IKEPayload>) -> Option<Seq<u8>> {
    match first_of_kind(ps, 1, 0) {
        Some(i) => match ps[i] {
            IKEPayload::KeyExchange(k) => if k.dh_group == DH_GROUP as u16 { Some(k.key_exchange_data@) } else { None },
            _ => None,
        },
        None => None,
    }
}

/// The authentication data carried by a message, if any.
pub open spec fn message_auth(ps: Seq<IKEPayload>) -> Option<Seq<u8>> {
    match first_of_kind(ps, 4, 0) {
        Some(i) => match ps[i] {
            IKEPayload::Authentication(a) => Some(a.auth_data@),
            _ => None,
        },
        None => None,
    }
}

fn nonce_of(ps: &Vec<IKEPayload>) -> (r: Option<Vec<u8>>)
    ensures
        match r { Some(v) => Some(v@), None => None } == message_nonce(ps@),
{
    match find_payload(ps, 2) {
        Some(i) => match &ps[i] {
            IKEPayload::Nonce(n) => Some(copy_vec(&n.nonce_data)),
            _ => None,
        },
        None => None,
    }
}

fn public_value_of(ps: &Vec<IKEPayload>) -> (r: Option<Vec<u8>>)
    ensures
        match r { Some(v) => Some(v@), None => None } == message_public_value(ps@),
{
    match find_payload(ps, 1) {
        Some(i) => match &ps[i] {
            IKEPayload::KeyExchange(k) => if k.dh_group == DH_GROUP as u16 { Some(copy_vec(&k.key_exchange_data)) } else { None },
            _ => None,
        },
        None => None,
    }
}

fn auth_of(ps: &Vec<IKEPayload>) -> (r: Option<Vec<u8>>)
    ensures
        match r { Some(v) => Some(v@), None => None } == message_auth(ps@),
{
    match find_payload(ps, 4) {
        Some(i) => match &ps[i] {
            IKEPayload::Authentication(a) => Some(copy_vec(&a.auth_data)),
            _ => None,
        },
        None => None,
    }
}

/// Whether a transform may appear in an acceptable proposal.
pub open spec fn transform_ok(t: Transform) -> bool {
    if t.transform_type == TRANSFORM_ENCR {
        t.transform_id == ENCR_AES_256_GCM || t.transform_id == ENCR_CHACHA20_POLY1305
    } else if t.transform_type == TRANSFORM_PRF {
        t.transform_id == PRF_HMAC_SHA256
    } else if t.transform_type == TRANSFORM_INTEG {
        t.transform_id == INTEG_HMAC_SHA256_128
    } else if t.transform_type == TRANSFORM_DH {
        t.transform_id == DH_GROUP as u16
    } else {
        false
    }
}

/// A proposal is acceptable when it names an encryption transform and every
/// transform is one this end supports.
pub open spec fn proposal_ok(p: SAProposal) -> bool {
    &&& exists|i: int| 0 <= i < p.transforms@.len() && (#[trigger] p.transforms@[i]).transform_type == TRANSFORM_ENCR
    &&& forall|i: int| 0 <= i < p.transforms@.len() ==> transform_ok(#[trigger] p.transforms@[i])
}

fn transform_acceptable(t: &Transform) -> (r: bool)
    ensures
        r == transform_ok(*t),
{
    if t.transform_type == TRANSFORM_ENCR {
        t.transform_id == ENCR_AES_256_GCM || t.transform_id == ENCR_CHACHA20_POLY1305
    } else if t.transform_type == TRANSFORM_PRF {
        t.transform_id == PRF_HMAC_SHA256
    } else if t.transform_type == TRANSFORM_INTEG {
        t.transform_id == INTEG_HMAC_SHA256_128
    } else if t.transform_type == TRANSFORM_DH {
        t.transform_id == DH_GROUP as u16
    } else {
        false
    }
}

fn proposal_acceptable(p: &SAProposal) -> (r: bool)
    ensures
        r == proposal_ok(*p),
{
    let mut has_encr = false;
    let mut i: usize = 0;
    while i < p.transforms.len()
        invariant
            i <= p.transforms@.len(),
            forall|j: int| 0 <= j < i ==> transform_ok(#[trigger] p.transforms@[j]),
            has_encr == exists|j: int| 0 <= j < i && (#[trigger] p.transforms@[j]).transform_type == TRANSFORM_ENCR,
        decreases p.transforms.len() - i,
    {
        if !transform_acceptable(&p.transforms[i]) {
            return false;
        }
        if p.transforms[i].transform_type == TRANSFORM_ENCR {
            has_encr = true;
        }
        i += 1;
    }
    has_encr
}

/// Index of the first acceptable proposal.
pub fn select_proposal(proposals: &Vec<SAProposal>) -> (r: Option<usize>)
    ensures
        r is None <==> forall|i: int| 0 <= i < proposals@.len() ==> !proposal_ok(#[trigger] proposals@[i]),
        r matches Some(i) ==> i < proposals@.len() && proposal_ok(proposals@[i as int])
            && forall|j: int| 0 <= j < i ==> !proposal_ok(#[trigger] proposals@[j]),
{
    let mut i: usize = 0;
    while i < proposals.len()
        invariant
            i <= proposals@.len(),
            forall|j: int| 0 <= j < i ==> !proposal_ok(#[trigger] proposals@[j]),
        decreases proposals.len() - i,
    {
        if proposal_acceptable(&proposals[i]) {
            return Some(i);
        }
        i += 1;
    }
    None
}

fn transform(transform_type: u8, transform_id: u16) -> (r: Transform)
    ensures
        r.transform_type == transform_type,
        r.transform_id == transform_id,
{
    Transform { transform_type, transform_id, attributes: Vec::new() }
}

fn proposal(num: u8, encr: u16, dh_group: u8) -> (r: SAProposal)
    requires
        encr == ENCR_AES_256_GCM || encr == ENCR_CHACHA20_POLY1305,
        dh_group == DH_GROUP,
    ensures
        r.proposal_num == num,
        proposal_ok(r),
{
    let mut transforms: Vec<Transform> = Vec::new();
    transforms.push(transform(TRANSFORM_ENCR, encr));
    transforms.push(transform(TRANSFORM_PRF, PRF_HMAC_SHA256));
    transforms.push(transform(TRANSFORM_INTEG, INTEG_HMAC_SHA256_128));
    transforms.push(transform(TRANSFORM_DH, dh_group as u16));
    assert(transforms@[0].transform_type == TRANSFORM_ENCR);
    assert(transform_ok(transforms@[0]));
    assert(transform_ok(transforms@[1]));
    assert(transform_ok(transforms@[2]));
    assert(transform_ok(transforms@[3]));
    assert(forall|i: int| 0 <= i < transforms@.len() ==> transform_ok(#[trigger] transforms@[i]));
    let r = SAProposal { proposal_num: num, protocol_id: 1, spi: Vec::new(), transforms };
    assert(r.transforms@[0].transform_type == TRANSFORM_ENCR);
    r
}

/// The offered transform sets: AES-256-GCM first, then ChaCha20-Poly1305,
/// each with HMAC-SHA-256 as PRF, HMAC-SHA-256-128 for integrity and DH
/// group 19 (X25519), the one group this end computes.
pub fn create_sa_proposal(dh_group: u8) -> (r: SAPayload)
    requires
        dh_group == DH_GROUP,
    ensures
        r.proposals@.len() == 2,
        proposal_ok(r.proposals@[0]),
        proposal_ok(r.proposals@[1]),
{
    let mut proposals: Vec<SAProposal> = Vec::new();
    proposals.push(proposal(1, ENCR_AES_256_GCM, dh_group));
    proposals.push(proposal(2, ENCR_CHACHA20_POLY1305, dh_group));
    SAPayload { proposals }
}

/// Label bytes of the two derived keys.
pub open spec fn enc_label() -> Seq<u8> {
    seq![0x65u8, 0x6e, 0x63]
}

pub open spec fn auth_label() -> Seq<u8> {
    seq![0x61u8, 0x75, 0x74, 0x68]
}

/// What a side signs in phase 2.
pub open spec fn auth_input(secret: Seq<u8>, own_nonce: Seq<u8>, peer_nonce: Seq<u8>) -> Seq<u8> {
    secret + own_nonce + peer_nonce
}

/// Authentication data that proves knowledge of `psk`.
pub open spec fn spec_auth_data(psk: Seq<u8>, secret: Seq<u8>, own_nonce: Seq<u8>, peer_nonce: Seq<u8>) -> Seq<u8> {
    hmac_tag(1, psk, auth_input(secret, own_nonce, peer_nonce))
}

fn concat3(a: &Vec<u8>, b: &Vec<u8>, c: &Vec<u8>) -> (r: Vec<u8>)
    requires
        a@.len() + b@.len() + c@.len() <= usize::MAX,
    ensures
        r@ == a@ + b@ + c@,
{
    let mut r = copy_vec(a);
    let mut i: usize = 0;
    while i < b.len()
        invariant
            i <= b@.len(),
            r@ == a@ + b@.subrange(0, i as int),
        decreases b.len() - i,
    {
        r.push(b[i]);
        assert(r@ =~= a@ + b@.subrange(0, i + 1));
        i += 1;
    }
    let mut k: usize = 0;
    while k < c.len()
        invariant
            k <= c@.len(),
            b@.subrange(0, b@.len() as int) == b@,
            r@ == a@ + b@ + c@.subrange(0, k as int),
        decreases c.len() - k,
    {
        r.push(c[k]);
        assert(r@ =~= a@ + b@ + c@.subrange(0, k + 1));
        k += 1;
    }
    assert(a@ + b@.subrange(0, b@.len() as int) =~= a@ + b@);
    assert(c@.subrange(0, c@.len() as int) =~= c@);
    r
}

/// HMAC-SHA256 of `data` under `key`.
fn sign_sha256(key: &Vec<u8>, data: &Vec<u8>) -> (r: Vec<u8>)
    requires
        data@.len() < MAX_HASH_INPUT,
    ensures
        r@ == hmac_tag(1, key@, data@),
{
    let c = crate::crypto::IKECrypto::new();
    match c.hmac_sign(key.as_slice(), data.as_slice()) {
        Ok(t) => t,
        Err(_) => Vec::new(),
    }
}

/// Whether `tag` is the HMAC-SHA256 of `data` under `key`.
fn verify_sha256(key: &Vec<u8>, data: &Vec<u8>, tag: &Vec<u8>) -> (r: bool)
    requires
        data@.len() < MAX_HASH_INPUT,
    ensures
        r == (hmac_tag(1, key@, data@) == tag@),
{
    let c = crate::crypto::IKECrypto::new();
    match c.hmac_verify(key.as_slice(), data.as_slice(), tag.as_slice()) {
        Ok(b) => b,
        Err(_) => false,
    }
}

/// Relies on uuid's `Uuid::new_v4`: a random 128-bit identifier. Nothing is
/// promised of its value.
#[verifier::external_body]
pub(crate) fn random_id() -> (r: u128) {
    uuid::Uuid::new_v4().as_u128()
}

/// A random 64-bit SPI.
fn random_spi() -> (r: Result<u64, IKEError>)
    ensures
        r matches Err(e) ==> e is Crypto,
{
    let bytes = rand_bytes(8)?;
    let mut v: u64 = 0;
    let mut i: usize = 0;
    while i < 8
        invariant
            bytes@.len() == 8,
            i <= 8,
        decreases 8 - i,
    {
        v = (v % 0x100000000000000) * 0x100 + bytes[i] as u64;
        i += 1;
    }
    Ok(v)
}

/// One end of a key-agreement session.
#[derive(Debug)]
pub struct IKESession {
    pub local_spi: u64,
    pub remote_spi: u64,
    pub shared_secret: Vec<u8>,
    pub encryption_key: Vec<u8>,
    pub authentication_key: Vec<u8>,
    pub state: IKEState,
    pub peer_addr: SocketAddress,
    pub dh_group: u8,
    /// Whether this end started the exchange.
    pub initiator: bool,
    pub local_nonce: Vec<u8>,
    pub peer_nonce: Vec<u8>,
    /// The private half of this end's key-exchange value, held until the
    /// peer's public value arrives.
    pub private_key: Option<EphemeralPrivateKey>,
}

impl IKESession {
    /// The keys were derived from the shared secret.
    pub open spec fn keys_derived(&self) -> bool {
        &&& self.shared_secret@.len() == 32
        &&& self.encryption_key@ == hkdf_sha256(self.shared_secret@, enc_label())
        &&& self.authentication_key@ == hkdf_sha256(self.shared_secret@, auth_label())
        &&& self.encryption_key@.len() == 32
        &&& self.local_nonce@.len() == NONCE_SIZE
        &&& self.peer_nonce@.len() <= 0x10000
    }

    /// A new session in state Initial with a random local SPI. Only DH group
    /// 19 (X25519) is computed here; any other group is a configuration error.
    pub fn new(peer_addr: SocketAddress, dh_group: u8) -> (r: Result<IKESession, IKEError>)
        ensures
            dh_group != DH_GROUP ==> (r matches Err(e) && e is Configuration),
            r matches Ok(s) ==> s.state == IKEState::Initial && s.peer_addr == peer_addr
                && s.dh_group == dh_group && s.remote_spi == 0 && s.private_key is None,
            r matches Err(e) ==> e is Crypto || e is Configuration,
    {
        if dh_group != DH_GROUP {
            return Err(IKEError::Configuration(String::from_str("unsupported DH group")));
        }
        let local_spi = random_spi()?;
        Ok(IKESession {
            local_spi,
            remote_spi: 0,
            shared_secret: Vec::new(),
            encryption_key: Vec::new(),
            authentication_key: Vec::new(),
            state: IKEState::Initial,
            peer_addr,
            dh_group,
            initiator: false,
            local_nonce: Vec::new(),
            peer_nonce: Vec::new(),
            private_key: None,
        })
    }

    pub fn is_established(&self) -> (r: bool)
        ensures
            r == (self.state == IKEState::Established),
    {
        match self.state {
            IKEState::Established => true,
            _ => false,
        }
    }

    /// Ends the session.
    pub fn close(&mut self)
        ensures
            final(self).state == IKEState::Deleted,
    {
        self.state = IKEState::Deleted;
    }

    /// Seals `plaintext` with the session's encryption key; only an
    /// established session seals.
    pub fn encrypt_payload(&self, nonce: &[u8], plaintext: &[u8]) -> (r: Result<Vec<u8>, IKEError>)
        requires
            self.state == IKEState::Established ==> self.keys_derived(),
        ensures
            self.state != IKEState::Established ==> (r matches Err(e) && e is Protocol),
            self.state == IKEState::Established && nonce@.len() != 12 ==> r is Err,
            self.state == IKEState::Established && nonce@.len() == 12 && plaintext@.len() <= MAX_AEAD_INPUT ==> r is Ok,
            r matches Ok(c) ==> c@ == aead_sealed(1, self.encryption_key@, nonce@, plaintext@),
    {
        if !self.is_established() {
            return Err(IKEError::Protocol(String::from_str("session not established")));
        }
        IKECrypto::new().encrypt(self.encryption_key.as_slice(), plaintext, nonce)
    }

    /// Opens `ciphertext` with the session's encryption key; only an
    /// established session opens.
    pub fn decrypt_payload(&self, nonce: &[u8], ciphertext: &[u8]) -> (r: Result<Vec<u8>, IKEError>)
        requires
            self.state == IKEState::Established ==> self.keys_derived(),
        ensures
            self.state != IKEState::Established ==> (r matches Err(e) && e is Protocol),
            self.state == IKEState::Established && nonce@.len() != 12 ==> r is Err,
            self.state == IKEState::Established && nonce@.len() == 12 ==> opened(
                1, self.encryption_key@, nonce@, ciphertext@, match r { Ok(p) => Some(p@), Err(_) => None }),
    {
        if !self.is_established() {
            return Err(IKEError::Protocol(String::from_str("session not established")));
        }
        IKECrypto::new().decrypt(self.encryption_key.as_slice(), ciphertext, nonce)
    }

    /// Derives the shared secret from our private key and the peer's public
    /// value, then the two keys.
    fn derive(&mut self, private: EphemeralPrivateKey, peer_public: &Vec<u8>) -> (r: Result<(), IKEError>)
        ensures
            r is Ok ==> final(self).shared_secret@.len() == 32
                && final(self).encryption_key@ == hkdf_sha256(final(self).shared_secret@, enc_label())
                && final(self).authentication_key@ == hkdf_sha256(final(self).shared_secret@, auth_label())
                && final(self).encryption_key@.len() == 32,
            r is Err ==> *final(self) == *old(self),
            r matches Err(e) ==> e is Crypto,
            final(self).state == old(self).state,
            final(self).local_nonce == old(self).local_nonce,
            final(self).peer_nonce == old(self).peer_nonce,
            final(self).local_spi == old(self).local_spi,
            final(self).remote_spi == old(self).remote_spi,
            final(self).initiator == old(self).initiator,
    {
        let secret = match x25519_agree(private, peer_public.as_slice()) {
            Some(s) => s,
            None => {
                return Err(IKEError::Crypto(String::from_str("key agreement failed")));
            },
        };
        let enc_label: Vec<u8> = vec![0x65u8, 0x6e, 0x63];
        let auth_label: Vec<u8> = vec![0x61u8, 0x75, 0x74, 0x68];
        assert(enc_label@ =~= crate::ike::enc_label());
        assert(auth_label@ =~= crate::ike::auth_label());
        let enc = kdf(secret.as_slice(), enc_label.as_slice())?;
        let auth = kdf(secret.as_slice(), auth_label.as_slice())?;
        self.shared_secret = secret;
        self.encryption_key = enc;
        self.authentication_key = auth;
        Ok(())
    }

    /// Phase 1, initiator side: picks a nonce and a key-exchange value and
    /// builds the SA_INIT request. Only a session in state Initial starts.
    pub fn initiate_sa_init(&mut self) -> (r: Result<IKEMessage, IKEError>)
        requires
        ensures
            old(self).state != IKEState::Initial ==> (r matches Err(e) && e is Protocol),
            r matches Ok(m) ==> final(self).state == IKEState::SaInit && final(self).initiator
                && m.exchange_type == ExchangeType::IkeSaInit
                && m.initiator_spi == old(self).local_spi && m.responder_spi == 0
                && message_nonce(m.payloads@) == Some(final(self).local_nonce@)
                && final(self).local_nonce@.len() == NONCE_SIZE
                && message_public_value(m.payloads@) is Some
                && final(self).private_key is Some,
            r is Err ==> final(self).state == old(self).state,
            final(self).local_spi == old(self).local_spi,
            final(self).dh_group == old(self).dh_group,
    {
        if self.state != IKEState::Initial {
            return Err(IKEError::Protocol(String::from_str("exchange already started")));
        }
        let nonce = rand_bytes(NONCE_SIZE)?;
        let (private, public) = match x25519_keypair() {
            Some(kp) => kp,
            None => {
                return Err(IKEError::Crypto(String::from_str("key generation failed")));
            },
        };
        let mut payloads: Vec<IKEPayload> = Vec::new();
        payloads.push(IKEPayload::SA(create_sa_proposal(DH_GROUP)));
        payloads.push(IKEPayload::KeyExchange(KeyExchangePayload { dh_group: DH_GROUP as u16, key_exchange_data: public }));
        payloads.push(IKEPayload::Nonce(NoncePayload { nonce_data: copy_vec(&nonce) }));
        proof {
            assert(first_of_kind(payloads@, 2, 2) == Some(2int));
            assert(first_of_kind(payloads@, 2, 1) == Some(2int));
            assert(first_of_kind(payloads@, 2, 0) == Some(2int));
            assert(first_of_kind(payloads@, 1, 1) == Some(1int));
            assert(first_of_kind(payloads@, 1, 0) == Some(1int));
        }
        self.local_nonce = nonce;
        self.private_key = Some(private);
        self.initiator = true;
        self.state = IKEState::SaInit;
        Ok(IKEMessage {
            initiator_spi: self.local_spi,
            responder_spi: 0,
            next_payload: 0,
            version: IKE_VERSION,
            exchange_type: ExchangeType::IkeSaInit,
            flags: FLAG_INITIATOR,
            message_id: 0,
            length: 0,
            payloads,
        })
    }

    /// Phase 1, responder side: checks the request, chooses the first
    /// acceptable proposal, answers with its own nonce and key-exchange
    /// value, and derives the keys. Only a session in state Initial answers.
    pub fn respond_sa_init(&mut self, request: &IKEMessage) -> (r: Result<IKEMessage, IKEError>)
        ensures
            old(self).state != IKEState::Initial ==> (r matches Err(e) && e is Protocol),
            request.exchange_type != ExchangeType::IkeSaInit ==> r is Err,
            message_nonce(request.payloads@) is None ==> r is Err,
            message_public_value(request.payloads@) is None ==> r is Err,
            r matches Ok(m) ==> final(self).state == IKEState::Auth && !final(self).initiator
                && final(self).keys_derived()
                && final(self).remote_spi == request.initiator_spi
                && message_nonce(request.payloads@) == Some(final(self).peer_nonce@)
                && message_nonce(m.payloads@) == Some(final(self).local_nonce@)
                && message_public_value(m.payloads@) is Some
                && m.exchange_type == ExchangeType::IkeSaInit
                && m.initiator_spi == request.initiator_spi
                && m.responder_spi == final(self).local_spi,
            r is Err ==> final(self).state == old(self).state,
            final(self).local_spi == old(self).local_spi,
    {
        if self.state != IKEState::Initial {
            return Err(IKEError::Protocol(String::from_str("exchange already started")));
        }
        if request.exchange_type != ExchangeType::IkeSaInit {
            return Err(IKEError::Protocol(String::from_str("expected SA_INIT")));
        }
        let chosen = match find_payload(&request.payloads, 0) {
            Some(i) => match &request.payloads[i] {
                IKEPayload::SA(sa) => match select_proposal(&sa.proposals) {
                    Some(k) => k,
                    None => {
                        return Err(IKEError::Protocol(String::from_str("no proposal chosen")));
                    },
                },
                _ => {
                    return Err(IKEError::Protocol(String::from_str("missing SA payload")));
                },
            },
            None => {
                return Err(IKEError::Protocol(String::from_str("missing SA payload")));
            },
        };
        let peer_nonce = match nonce_of(&request.payloads) {
            Some(n) => n,
            None => {
                return Err(IKEError::Protocol(String::from_str("missing nonce payload")));
            },
        };
        if peer_nonce.len() > 0x10000 {
            return Err(IKEError::Protocol(String::from_str("nonce too long")));
        }
        let peer_public = match public_value_of(&request.payloads) {
            Some(v) => v,
            None => {
                return Err(IKEError::Protocol(String::from_str("missing key exchange payload")));
            },
        };
        let nonce = rand_bytes(NONCE_SIZE)?;
        let (private, public) = match x25519_keypair() {
            Some(kp) => kp,
            None => {
                return Err(IKEError::Crypto(String::from_str("key generation failed")));
            },
        };
        let ghost before = *self;
        self.derive(private, &peer_public)?;
        let chosen_number: u8 = match find_payload(&request.payloads, 0) {
            Some(i) => match &request.payloads[i] {
                IKEPayload::SA(sa) => if chosen < sa.proposals.len() { sa.proposals[chosen].proposal_num } else { 0 },
                _ => 0,
            },
            None => 0,
        };
        let mut proposals: Vec<SAProposal> = Vec::new();
        let mut transforms: Vec<Transform> = Vec::new();
        transforms.push(transform(TRANSFORM_PRF, PRF_HMAC_SHA256));
        proposals.push(SAProposal { proposal_num: chosen_number, protocol_id: 1, spi: Vec::new(), transforms });
        let mut payloads: Vec<IKEPayload> = Vec::new();
        payloads.push(IKEPayload::SA(SAPayload { proposals }));
        payloads.push(IKEPayload::KeyExchange(KeyExchangePayload { dh_group: DH_GROUP as u16, key_exchange_data: public }));
        payloads.push(IKEPayload::Nonce(NoncePayload { nonce_data: copy_vec(&nonce) }));
        proof {
            assert(first_of_kind(payloads@, 2, 2) == Some(2int));
            assert(first_of_kind(payloads@, 2, 1) == Some(2int));
            assert(first_of_kind(payloads@, 2, 0) == Some(2int));
            assert(first_of_kind(payloads@, 1, 1) == Some(1int));
            assert(first_of_kind(payloads@, 1, 0) == Some(1int));
        }
        self.local_nonce = nonce;
        self.peer_nonce = peer_nonce;
        self.remote_spi = request.initiator_spi;
        self.initiator = false;
        self.state = IKEState::Auth;
        Ok(IKEMessage {
            initiator_spi: request.initiator_spi,
            responder_spi: self.local_spi,
            next_payload: 0,
            version: IKE_VERSION,
            exchange_type: ExchangeType::IkeSaInit,
            flags: FLAG_RESPONSE,
            message_id: 0,
            length: 0,
            payloads,
        })
    }

    /// Phase 1, initiator side: takes the responder's answer and derives the
    /// keys. Only a session in state SaInit holding its private key completes.
    pub fn complete_sa_init(&mut self, response: &IKEMessage) -> (r: Result<(), IKEError>)
        requires
            old(self).local_nonce@.len() == NONCE_SIZE,
        ensures
            old(self).state != IKEState::SaInit ==> (r matches Err(e) && e is Protocol),
            response.exchange_type != ExchangeType::IkeSaInit ==> r is Err,
            message_nonce(response.payloads@) is None ==> r is Err,
            message_public_value(response.payloads@) is None ==> r is Err,
            r is Ok ==> final(self).state == IKEState::Auth && final(self).keys_derived()
                && final(self).remote_spi == response.responder_spi
                && message_nonce(response.payloads@) == Some(final(self).peer_nonce@)
                && final(self).local_nonce == old(self).local_nonce
                && final(self).initiator == old(self).initiator,
            r is Err ==> final(self).state == old(self).state || final(self).state == IKEState::Deleted,
            final(self).local_spi == old(self).local_spi,
    {
        if self.state != IKEState::SaInit {
            return Err(IKEError::Protocol(String::from_str("no exchange in progress")));
        }
        if response.exchange_type != ExchangeType::IkeSaInit {
            return Err(IKEError::Protocol(String::from_str("expected SA_INIT response")));
        }
        let peer_nonce = match nonce_of(&response.payloads) {
            Some(n) => n,
            None => {
                return Err(IKEError::Protocol(String::from_str("missing nonce payload")));
            },
        };
        if peer_nonce.len() > 0x10000 {
            return Err(IKEError::Protocol(String::from_str("nonce too long")));
        }
        let peer_public = match public_value_of(&response.payloads) {
            Some(v) => v,
            None => {
                return Err(IKEError::Protocol(String::from_str("missing key exchange payload")));
            },
        };
        let private = match self.private_key.take() {
            Some(k) => k,
            None => {
                self.state = IKEState::Deleted;
                return Err(IKEError::Protocol(String::from_str("no key exchange value held")));
            },
        };
        match self.derive(private, &peer_public) {
            Ok(()) => {},
            Err(e) => {
                self.state = IKEState::Deleted;
                return Err(e);
            },
        }
        self.peer_nonce = peer_nonce;
        self.remote_spi = response.responder_spi;
        self.state = IKEState::Auth;
        Ok(())
    }

    /// Phase 2: the AUTH message of this end,
    /// HMAC-SHA256(psk, secret || own nonce || peer nonce).
    pub fn create_auth(&self, psk: &Vec<u8>) -> (r: Result<IKEMessage, IKEError>)
        requires
            self.state == IKEState::Auth ==> self.keys_derived(),
        ensures
            self.state != IKEState::Auth ==> (r matches Err(e) && e is Protocol),
            self.state == IKEState::Auth ==> (r matches Ok(m) && m.exchange_type == ExchangeType::IkeAuth
                && message_auth(m.payloads@) == Some(spec_auth_data(psk@, self.shared_secret@, self.local_nonce@, self.peer_nonce@))),
    {
        if self.state != IKEState::Auth {
            return Err(IKEError::Protocol(String::from_str("not ready to authenticate")));
        }
        let data = concat3(&self.shared_secret, &self.local_nonce, &self.peer_nonce);
        let auth_data = sign_sha256(psk, &data);
        let mut payloads: Vec<IKEPayload> = Vec::new();
        payloads.push(IKEPayload::Authentication(AuthPayload { auth_method: AUTH_METHOD_PSK, auth_data }));
        assert(first_of_kind(payloads@, 4, 0) == Some(0int));
        let (i_spi, r_spi) = if self.initiator { (self.local_spi, self.remote_spi) } else { (self.remote_spi, self.local_spi) };
        Ok(IKEMessage {
            initiator_spi: i_spi,
            responder_spi: r_spi,
            next_payload: 0,
            version: IKE_VERSION,
            exchange_type: ExchangeType::IkeAuth,
            flags: if self.initiator { FLAG_INITIATOR } else { FLAG_RESPONSE },
            message_id: 1,
            length: 0,
            payloads,
        })
    }

    /// Phase 2: checks the peer's AUTH message. A match establishes the
    /// session; a mismatch deletes it and fails with AuthenticationFailed.
    pub fn verify_auth(&mut self, psk: &Vec<u8>, message: &IKEMessage) -> (r: Result<(), IKEError>)
        requires
            old(self).state == IKEState::Auth ==> old(self).keys_derived(),
        ensures
            old(self).state != IKEState::Auth ==> (r matches Err(e) && e is Protocol) && final(self).state == old(self).state,
            old(self).state == IKEState::Auth ==> match message_auth(message.payloads@) {
                None => (r matches Err(e) && e is Protocol) && final(self).state == IKEState::Deleted,
                Some(data) => if data == spec_auth_data(psk@, old(self).shared_secret@, old(self).peer_nonce@, old(self).local_nonce@) {
                    r is Ok && final(self).state == IKEState::Established
                } else {
                    (r matches Err(e) && e is AuthenticationFailed) && final(self).state == IKEState::Deleted
                },
            },
            final(self).shared_secret == old(self).shared_secret,
            final(self).encryption_key == old(self).encryption_key,
            final(self).authentication_key == old(self).authentication_key,
            final(self).local_nonce == old(self).local_nonce,
            final(self).peer_nonce == old(self).peer_nonce,
            final(self).initiator == old(self).initiator,
    {
        if self.state != IKEState::Auth {
            return Err(IKEError::Protocol(String::from_str("not ready to authenticate")));
        }
        let received = match auth_of(&message.payloads) {
            Some(d) => d,
            None => {
                self.state = IKEState::Deleted;
                return Err(IKEError::Protocol(String::from_str("missing authentication payload")));
            },
        };
        let data = concat3(&self.shared_secret, &self.peer_nonce, &self.local_nonce);
        if verify_sha256(psk, &data, &received) {
            self.state = IKEState::Established;
            Ok(())
        } else {
            self.state = IKEState::Deleted;
            Err(IKEError::AuthenticationFailed)
        }
    }

    /// Starts a rekey: a fresh phase 1 under the running session. The old
    /// keys stay in force until the new ones are installed.
    pub fn begin_rekey(&mut self) -> (r: Result<IKEMessage, IKEError>)
        requires
        ensures
            old(self).state != IKEState::Established ==> (r matches Err(e) && e is Protocol),
            r matches Ok(m) ==> final(self).state == IKEState::Rekeying
                && m.exchange_type == ExchangeType::CreateChildSa
                && message_nonce(m.payloads@) == Some(final(self).local_nonce@)
                && final(self).local_nonce@.len() == NONCE_SIZE
                && message_public_value(m.payloads@) is Some,
            r is Err ==> *final(self) == *old(self),
            final(self).encryption_key == old(self).encryption_key,
            final(self).authentication_key == old(self).authentication_key,
            final(self).shared_secret == old(self).shared_secret,
            final(self).initiator == old(self).initiator,
            final(self).peer_nonce == old(self).peer_nonce,
    {
        if self.state != IKEState::Established {
            return Err(IKEError::Protocol(String::from_str("session not established")));
        }
        let nonce = rand_bytes(NONCE_SIZE)?;
        let (private, public) = match x25519_keypair() {
            Some(kp) => kp,
            None => {
                return Err(IKEError::Crypto(String::from_str("key generation failed")));
            },
        };
        let mut payloads: Vec<IKEPayload> = Vec::new();
        payloads.push(IKEPayload::SA(create_sa_proposal(DH_GROUP)));
        payloads.push(IKEPayload::KeyExchange(KeyExchangePayload { dh_group: DH_GROUP as u16, key_exchange_data: public }));
        payloads.push(IKEPayload::Nonce(NoncePayload { nonce_data: copy_vec(&nonce) }));
        proof {
            assert(first_of_kind(payloads@, 2, 2) == Some(2int));
            assert(first_of_kind(payloads@, 2, 1) == Some(2int));
            assert(first_of_kind(payloads@, 2, 0) == Some(2int));
            assert(first_of_kind(payloads@, 1, 1) == Some(1int));
            assert(first_of_kind(payloads@, 1, 0) == Some(1int));
        }
        self.local_nonce = nonce;
        self.private_key = Some(private);
        self.state = IKEState::Rekeying;
        Ok(IKEMessage {
            initiator_spi: self.local_spi,
            responder_spi: self.remote_spi,
            next_payload: 0,
            version: IKE_VERSION,
            exchange_type: ExchangeType::CreateChildSa,
            flags: FLAG_INITIATOR,
            message_id: 2,
            length: 0,
            payloads,
        })
    }

    /// Answers a rekey request: derives and installs the new keys at once and
    /// stays established. On any failure the old keys stay in force.
    pub fn respond_rekey(&mut self, request: &IKEMessage) -> (r: Result<IKEMessage, IKEError>)
        ensures
            old(self).state != IKEState::Established ==> (r matches Err(e) && e is Protocol),
            request.exchange_type != ExchangeType::CreateChildSa ==> r is Err,
            r is Ok ==> final(self).state == IKEState::Established && final(self).keys_derived()
                && message_nonce(request.payloads@) == Some(final(self).peer_nonce@),
            r matches Ok(m) ==> message_nonce(m.payloads@) == Some(final(self).local_nonce@)
                && message_public_value(m.payloads@) is Some,
            r is Err ==> *final(self) == *old(self),
    {
        if self.state != IKEState::Established {
            return Err(IKEError::Protocol(String::from_str("session not established")));
        }
        if request.exchange_type != ExchangeType::CreateChildSa {
            return Err(IKEError::Protocol(String::from_str("expected rekey request")));
        }
        let peer_nonce = match nonce_of(&request.payloads) {
            Some(n) => n,
            None => {
                return Err(IKEError::Protocol(String::from_str("missing nonce payload")));
            },
        };
        if peer_nonce.len() > 0x10000 {
            return Err(IKEError::Protocol(String::from_str("nonce too long")));
        }
        let peer_public = match public_value_of(&request.payloads) {
            Some(v) => v,
            None => {
                return Err(IKEError::Protocol(String::from_str("missing key exchange payload")));
            },
        };
        let nonce = rand_bytes(NONCE_SIZE)?;
        let (private, public) = match x25519_keypair() {
            Some(kp) => kp,
            None => {
                return Err(IKEError::Crypto(String::from_str("key generation failed")));
            },
        };
        self.derive(private, &peer_public)?;
        let mut payloads: Vec<IKEPayload> = Vec::new();
        payloads.push(IKEPayload::KeyExchange(KeyExchangePayload { dh_group: DH_GROUP as u16, key_exchange_data: public }));
        payloads.push(IKEPayload::Nonce(NoncePayload { nonce_data: copy_vec(&nonce) }));
        proof {
            assert(first_of_kind(payloads@, 2, 1) == Some(1int));
            assert(first_of_kind(payloads@, 2, 0) == Some(1int));
            assert(first_of_kind(payloads@, 1, 0) == Some(0int));
        }
        self.local_nonce = nonce;
        self.peer_nonce = peer_nonce;
        Ok(IKEMessage {
            initiator_spi: request.initiator_spi,
            responder_spi: self.local_spi,
            next_payload: 0,
            version: IKE_VERSION,
            exchange_type: ExchangeType::CreateChildSa,
            flags: FLAG_RESPONSE,
            message_id: request.message_id,
            length: 0,
            payloads,
        })
    }

    /// Completes a rekey this end started: installs the new keys and returns
    /// to Established. On failure the old keys stay in force and the session
    /// returns to Established.
    pub fn complete_rekey(&mut self, response: &IKEMessage) -> (r: Result<(), IKEError>)
        requires
            old(self).local_nonce@.len() == NONCE_SIZE,
        ensures
            old(self).state != IKEState::Rekeying ==> (r matches Err(e) && e is Protocol) && final(self).state == old(self).state,
            old(self).state == IKEState::Rekeying ==> final(self).state == IKEState::Established,
            r is Ok ==> final(self).keys_derived() && message_nonce(response.payloads@) == Some(final(self).peer_nonce@),
            r is Err ==> final(self).encryption_key == old(self).encryption_key
                && final(self).authentication_key == old(self).authentication_key
                && final(self).shared_secret == old(self).shared_secret
                && final(self).local_nonce == old(self).local_nonce
                && final(self).peer_nonce == old(self).peer_nonce,
    {
        if self.state != IKEState::Rekeying {
            return Err(IKEError::Protocol(String::from_str("no rekey in progress")));
        }
        self.state = IKEState::Established;
        let private = match self.private_key.take() {
            Some(k) => k,
            None => {
                return Err(IKEError::Protocol(String::from_str("no key exchange value held")));
            },
        };
        if response.exchange_type != ExchangeType::CreateChildSa {
            return Err(IKEError::Protocol(String::from_str("expected rekey response")));
        }
        let peer_nonce = match nonce_of(&response.payloads) {
            Some(n) => n,
            None => {
                return Err(IKEError::Protocol(String::from_str("missing nonce payload")));
            },
        };
        if peer_nonce.len() > 0x10000 {
            return Err(IKEError::Protocol(String::from_str("nonce too long")));
        }
        let peer_public = match public_value_of(&response.payloads) {
            Some(v) => v,
            None => {
                return Err(IKEError::Protocol(String::from_str("missing key exchange payload")));
            },
        };
        self.derive(private, &peer_public)?;
        self.peer_nonce = peer_nonce;
        Ok(())
    }
}

/// Runs both phases between two local ends: `initiator` starts, `responder`
/// answers, each proves its pre-shared key to the other. On success both
/// ends are Established with keys derived from their shared secret.
pub fn negotiate(initiator: &mut IKESession, responder: &mut IKESession, initiator_psk: &Vec<u8>, responder_psk: &Vec<u8>) -> (r: Result<(), IKEError>)
    requires
    ensures
        r is Ok ==> final(initiator).state == IKEState::Established && final(responder).state == IKEState::Established
            && final(initiator).keys_derived() && final(responder).keys_derived(),
        old(initiator).state != IKEState::Initial || old(responder).state != IKEState::Initial ==> r is Err,
{
    let request = initiator.initiate_sa_init()?;
    let response = responder.respond_sa_init(&request)?;
    initiator.complete_sa_init(&response)?;
    let auth_i = initiator.create_auth(initiator_psk)?;
    let auth_r = responder.create_auth(responder_psk)?;
    responder.verify_auth(responder_psk, &auth_i)?;
    initiator.verify_auth(initiator_psk, &auth_r)
}

} // verus!
