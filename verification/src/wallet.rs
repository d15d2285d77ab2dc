//! Wallets: secp256k1 key pairs, the addresses derived from them, and ECDSA
//! signatures over SHA-256 digests of messages.
use vstd::prelude::*;
use vstd::string::{StrSliceExecFns, StringExecFns, StringSliceAdditionalSpecFns};
use vstd::utf8::encode_utf8;

use crate::crypto::{hash_sha256, sha256, sha256_digest, sha256_hex};
use crate::encoding::{decode_hex, encode_hex, hex_decode, hex_lower, lemma_hex_round_trip};

verus! {

// ---------------------------------------------------------------------------
// secp256k1, seen through byte strings
// ---------------------------------------------------------------------------

/// Whether 32 bytes form a secp256k1 secret key (`SecretKey::from_slice`
/// accepts them).
pub uninterp spec fn secp256k1_secret_key_valid(secret_key: Seq<u8>) -> bool;

/// The compressed (33-byte) serialization of the public key of a secret key.
pub uninterp spec fn secp256k1_public_key(secret_key: Seq<u8>) -> Seq<u8>;

/// `PublicKey::from_slice` followed by the compressed serialization: the
/// public key that a byte string encodes, if it encodes one.
pub uninterp spec fn secp256k1_parse_public_key(bytes: Seq<u8>) -> Option<Seq<u8>>;

/// `ecdsa::Signature::from_compact` followed by `serialize_compact`: the
/// signature that 64 compact bytes encode, if they encode one.
pub uninterp spec fn secp256k1_parse_signature(bytes: Seq<u8>) -> Option<Seq<u8>>;

/// The compact ECDSA signature (RFC 6979 nonce) of a 32-byte digest under a
/// secret key.
pub uninterp spec fn ecdsa_sign(secret_key: Seq<u8>, digest: Seq<u8>) -> Seq<u8>;

/// Whether a compact ECDSA signature of a 32-byte digest checks against a
/// compressed public key.
pub uninterp spec fn ecdsa_verify(public_key: Seq<u8>, digest: Seq<u8>, signature: Seq<u8>) -> bool;

/// `Secp256k1::generate_keypair` with the operating system's random source:
/// a fresh random key pair, as the secret key's bytes and the public key's
/// compressed serialization. The pair itself is random; what is stated is
/// that the secret key is valid, that the public key is the one of the
/// secret key, that the serialization parses back to itself, and that it
/// is compressed (its first byte is 2 or 3).
#[verifier::external_body]
fn generate_keypair() -> (keys: ([u8; 32], [u8; 33]))
    ensures
        secp256k1_secret_key_valid(keys.0@),
        keys.1@ == secp256k1_public_key(keys.0@),
        secp256k1_parse_public_key(keys.1@) == Some(keys.1@),
        keys.1@[0] == 2 || keys.1@[0] == 3,
{
    let secp = secp256k1::Secp256k1::new();
    let (secret_key, public_key) = secp.generate_keypair(&mut rand::rngs::OsRng);
    (secret_key.secret_bytes(), public_key.serialize())
}

/// `PublicKey::from_slice`: parses a serialized public key (compressed or
/// uncompressed) and hands back its compressed serialization, or the crate's
/// error message. An empty slice is refused (the source checks for it
/// first), as is any slice that is neither 33 nor 65 bytes long (the only
/// sizes that libsecp256k1's parser takes); a compressed serialization
/// parses back to itself.
#[verifier::external_body]
fn parse_public_key(bytes: &[u8]) -> (res: Result<[u8; 33], String>)
    ensures
        match res {
            Ok(pk) => secp256k1_parse_public_key(bytes@) == Some(pk@),
            Err(_) => secp256k1_parse_public_key(bytes@) is None,
        },
        bytes@.len() == 0 ==> res is Err,
        bytes@.len() != 33 && bytes@.len() != 65 ==> res is Err,
        res matches Ok(pk) ==> secp256k1_parse_public_key(pk@) == Some(pk@),
{
    match secp256k1::PublicKey::from_slice(bytes) {
        Ok(pk) => Ok(pk.serialize()),
        Err(e) => Err(e.to_string()),
    }
}

/// `ecdsa::Signature::from_compact`: parses a 64-byte compact signature and
/// hands back its compact serialization, which parses back to itself.
#[verifier::external_body]
fn parse_signature(bytes: &[u8]) -> (res: Option<[u8; 64]>)
    ensures
        match res {
            Some(sig) => secp256k1_parse_signature(bytes@) == Some(sig@),
            None => secp256k1_parse_signature(bytes@) is None,
        },
        res matches Some(sig) ==> secp256k1_parse_signature(sig@) == Some(sig@),
{
    match secp256k1::ecdsa::Signature::from_compact(bytes) {
        Ok(sig) => Some(sig.serialize_compact()),
        Err(_) => None,
    }
}

/// `Secp256k1::sign_ecdsa` on `Message::from_digest`: the compact signature
/// of `digest` under the secret key. As the crate documents, the signature
/// checks against the key's public key; its compact form parses back to
/// itself.
#[verifier::external_body]
fn sign_digest(secret_key: &[u8; 32], digest: &[u8; 32]) -> (signature: [u8; 64])
    requires
        secp256k1_secret_key_valid(secret_key@),
    ensures
        signature@ == ecdsa_sign(secret_key@, digest@),
        ecdsa_verify(secp256k1_public_key(secret_key@), digest@, signature@),
        secp256k1_parse_signature(signature@) == Some(signature@),
{
    let secp = secp256k1::Secp256k1::new();
    let key = secp256k1::SecretKey::from_slice(secret_key).unwrap();
    let message = secp256k1::Message::from_digest(*digest);
    secp.sign_ecdsa(&message, &key).serialize_compact()
}

/// `Secp256k1::verify_ecdsa` on `Message::from_digest`: whether the
/// signature of `digest` checks against the public key.
#[verifier::external_body]
fn verify_digest(public_key: &[u8; 33], digest: &[u8; 32], signature: &[u8; 64]) -> (ok: bool)
    requires
        secp256k1_parse_public_key(public_key@) == Some(public_key@),
        secp256k1_parse_signature(signature@) == Some(signature@),
    ensures
        ok == ecdsa_verify(public_key@, digest@, signature@),
{
    let secp = secp256k1::Secp256k1::new();
    let key = secp256k1::PublicKey::from_slice(public_key).unwrap();
    let sig = secp256k1::ecdsa::Signature::from_compact(signature).unwrap();
    let message = secp256k1::Message::from_digest(*digest);
    secp.verify_ecdsa(&message, &sig, &key).is_ok()
}

// ---------------------------------------------------------------------------
// Addresses and signatures
// ---------------------------------------------------------------------------

/// The address of a public key: the first 40 hexadecimal characters of the
/// SHA-256 hash of its serialization.
pub open spec fn address_of(public_key: Seq<u8>) -> Seq<char> {
    sha256_hex(public_key).subrange(0, 40)
}

/// The address that a hex-encoded public key stands for, if the text
/// decodes and the bytes parse as a public key.
pub open spec fn address_of_public_key_hex(public_key_hex: Seq<char>) -> Option<Seq<char>> {
    match hex_decode(encode_utf8(public_key_hex)) {
        None => None,
        Some(bytes) => match secp256k1_parse_public_key(bytes) {
            None => None,
            Some(public_key) => Some(address_of(public_key)),
        },
    }
}

/// Whether `signature_hex` is a valid signature of `message` under the
/// public key `public_key_hex`: both decode from hex, parse, and the
/// signature checks against the SHA-256 digest of the message.
pub open spec fn signature_verifies(
    public_key_hex: Seq<char>,
    message: Seq<u8>,
    signature_hex: Seq<char>,
) -> bool {
    match hex_decode(encode_utf8(public_key_hex)) {
        None => false,
        Some(key_bytes) => match secp256k1_parse_public_key(key_bytes) {
            None => false,
            Some(public_key) => match hex_decode(encode_utf8(signature_hex)) {
                None => false,
                Some(sig_bytes) => match secp256k1_parse_signature(sig_bytes) {
                    None => false,
                    Some(signature) => ecdsa_verify(public_key, sha256(message), signature),
                },
            },
        },
    }
}

/// The address of a public key given by its serialization.
fn derive_address(public_key: &[u8]) -> (address: String)
    ensures
        address@ == address_of(public_key@),
        address@.len() == 40,
{
    let hash = hash_sha256(public_key);
    hash.as_str().substring_char(0, 40).to_owned()
}

/// Derives the address of a hex-encoded public key.
pub fn address_from_public_key_hex(pk_hex: &str) -> (res: Result<String, String>)
    ensures
        match res {
            Ok(address) => address_of_public_key_hex(pk_hex@) == Some(address@),
            Err(_) => address_of_public_key_hex(pk_hex@) is None,
        },
        hex_decode(pk_hex.spec_bytes()) is None ==> (res matches Err(msg) && exists|detail: Seq<char>|
            msg@ == "Invalid hex: "@ + detail),
        hex_decode(pk_hex.spec_bytes()) matches Some(bytes) && bytes.len() != 33 && bytes.len() != 65
            ==> res is Err,
        hex_decode(pk_hex.spec_bytes()) is Some && res is Err ==> (res matches Err(msg) && exists|
            detail: Seq<char>,
        | msg@ == "Invalid public key: "@ + detail),
        pk_hex@.len() == 0 ==> res is Err,
{
    let bytes = match decode_hex(pk_hex) {
        Ok(bytes) => bytes,
        Err(e) => {
            let mut message = String::from_str("Invalid hex: ");
            message.append(e.as_str());
            return Err(message);
        },
    };
    let public_key = match parse_public_key(bytes.as_slice()) {
        Ok(pk) => pk,
        Err(e) => {
            let mut message = String::from_str("Invalid public key: ");
            message.append(e.as_str());
            return Err(message);
        },
    };
    Ok(derive_address(&public_key))
}

/// Checks a hex-encoded signature of `message` against a hex-encoded public
/// key; anything that does not decode or parse is refused.
pub fn verify_signature(public_key_hex: &str, message: &[u8], signature_hex: &str) -> (ok: bool)
    ensures
        ok == signature_verifies(public_key_hex@, message@, signature_hex@),
{
    let key_bytes = match decode_hex(public_key_hex) {
        Ok(bytes) => bytes,
        Err(_) => return false,
    };
    let public_key = match parse_public_key(key_bytes.as_slice()) {
        Ok(pk) => pk,
        Err(_) => return false,
    };
    let sig_bytes = match decode_hex(signature_hex) {
        Ok(bytes) => bytes,
        Err(_) => return false,
    };
    let signature = match parse_signature(sig_bytes.as_slice()) {
        Some(sig) => sig,
        None => return false,
    };
    let digest = sha256_digest(message);
    verify_digest(&public_key, &digest, &signature)
}

// ---------------------------------------------------------------------------
// Wallet
// ---------------------------------------------------------------------------

/// A key pair and the address derived from its public key.
pub struct Wallet {
    secret_key: [u8; 32],
    public_key: [u8; 33],
    address: String,
}

impl Wallet {
    /// A wallet holds a valid secret key, the matching public key (whose
    /// serialization parses back to itself) and that key's address.
    #[verifier::type_invariant]
    pub closed spec fn inv(self) -> bool {
        &&& secp256k1_secret_key_valid(self.secret_key@)
        &&& self.public_key@ == secp256k1_public_key(self.secret_key@)
        &&& secp256k1_parse_public_key(self.public_key@) == Some(self.public_key@)
        &&& self.address@ == address_of(self.public_key@)
        &&& (self.public_key@[0] == 2 || self.public_key@[0] == 3)
    }

    /// The secret key's bytes.
    pub closed spec fn secret_key_bytes(self) -> Seq<u8> {
        self.secret_key@
    }

    /// The compressed serialization of the public key.
    pub closed spec fn public_key_bytes(self) -> Seq<u8> {
        self.public_key@
    }

    /// The wallet's address.
    pub closed spec fn address_text(self) -> Seq<char> {
        self.address@
    }

    /// The facts that the invariant gives about the public parts.
    pub proof fn lemma_keys(self)
        requires
            self.inv(),
        ensures
            self.public_key_bytes() == secp256k1_public_key(self.secret_key_bytes()),
            secp256k1_parse_public_key(self.public_key_bytes()) == Some(self.public_key_bytes()),
            self.address_text() == address_of(self.public_key_bytes()),
            self.public_key_bytes().len() == 33,
            self.secret_key_bytes().len() == 32,
            secp256k1_secret_key_valid(self.secret_key_bytes()),
            self.public_key_bytes()[0] == 2 || self.public_key_bytes()[0] == 3,
    {
    }

    /// Creates a wallet with a fresh random key pair.
    pub fn new() -> (wallet: Self)
        ensures
            wallet.inv(),
            wallet.address_text().len() == 40,
    {
        let (secret_key, public_key) = generate_keypair();
        let address = derive_address(&public_key);
        Wallet { secret_key, public_key, address }
    }

    /// The secret key's bytes.
    pub fn secret_key(&self) -> (key: [u8; 32])
        ensures
            key@ == self.secret_key_bytes(),
    {
        self.secret_key
    }

    /// The compressed serialization of the public key.
    pub fn public_key(&self) -> (key: [u8; 33])
        ensures
            key@ == self.public_key_bytes(),
    {
        self.public_key
    }

    /// The wallet's address.
    pub fn address(&self) -> (address: &str)
        ensures
            address@ == self.address_text(),
    {
        self.address.as_str()
    }

    /// The public key's compressed serialization, hex-encoded.
    pub fn public_key_hex(&self) -> (text: String)
        ensures
            text@ == hex_lower(self.public_key_bytes()),
            text@.len() == 66,
            text@[0] == '0',
            text@[1] == '2' || text@[1] == '3',
    {
        proof {
            use_type_invariant(self);
        }
        encode_hex(&self.public_key)
    }

    /// Signs the SHA-256 digest of `message`; the signature is hex-encoded.
    /// It checks against the wallet's hex-encoded public key.
    pub fn sign(&self, message: &[u8]) -> (signature: String)
        ensures
            signature@ == hex_lower(ecdsa_sign(self.secret_key_bytes(), sha256(message@))),
            signature_verifies(hex_lower(self.public_key_bytes()), message@, signature@),
            signature@.len() == 128,
    {
        proof {
            use_type_invariant(self);
        }
        let digest = sha256_digest(message);
        let signature = sign_digest(&self.secret_key, &digest);
        proof {
            lemma_hex_round_trip(self.public_key@);
            lemma_hex_round_trip(signature@);
        }
        encode_hex(&signature)
    }
}

impl Default for Wallet {
    fn default() -> (wallet: Self)
        ensures
            wallet.inv(),
    {
        Self::new()
    }
}

/// The hex-encoded public key of a wallet derives the wallet's address.
pub proof fn lemma_address_round_trip(wallet: Wallet)
    requires
        wallet.inv(),
    ensures
        address_of_public_key_hex(hex_lower(wallet.public_key_bytes())) == Some(wallet.address_text()),
{
    wallet.lemma_keys();
    lemma_hex_round_trip(wallet.public_key_bytes());
}

} // verus!
