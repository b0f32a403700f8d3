//! The Ed25519 signing algorithm.
//!
//! A secret key is a seed of 32 bytes and a public key has 32 bytes; both are
//! taken as they come, and only their lengths are looked at. The curve
//! arithmetic that leads from a secret key to its public key is the work of
//! `cryptoxide`, and an extended public key is taken apart by
//! `ed25519_bip32`.

use crate::key::{
    array_from_slice, decoded, same_bytes, AsymmetricKey, AsymmetricPublicKey, PublicKeyError,
    SecretKeyError,
};
use ed25519_bip32::XPub;
use vstd::prelude::*;
use vstd::std_specs::cmp::PartialEqSpecImpl;

verus! {

/// The length of the seed that a secret key is, in bytes.
pub const SEED_LENGTH: usize = 32;

/// The length of a public key in bytes.
pub const PUBLIC_KEY_LENGTH: usize = 32;

/// The length of a signature in bytes.
pub const SIGNATURE_LENGTH: usize = 64;

/// The length in bytes of the key pair that the signing primitive works on.
pub const KEYPAIR_LENGTH: usize = 64;

/// The length in bytes of an extended public key: a public key, then a chain
/// code.
pub const EXTENDED_PUBLIC_KEY_LENGTH: usize = 64;

/// The Ed25519 signing algorithm.
pub struct Ed25519;

/// A secret key: a seed of `SEED_LENGTH` bytes.
pub struct Priv([u8; SEED_LENGTH]);

/// A public key of `PUBLIC_KEY_LENGTH` bytes.
#[derive(Hash)]
pub struct Pub([u8; PUBLIC_KEY_LENGTH]);

/// A signature of `SIGNATURE_LENGTH` bytes.
pub struct Sig([u8; SIGNATURE_LENGTH]);

/// An extended public key of a hierarchical wallet: the `PUBLIC_KEY_LENGTH`
/// bytes of a public key, followed by the bytes of its chain code.
pub struct ExtendedPublicKey([u8; EXTENDED_PUBLIC_KEY_LENGTH]);

impl View for Priv {
    type V = Seq<u8>;

    /// The bytes of the secret key, in order.
    closed spec fn view(&self) -> Seq<u8> {
        self.0@
    }
}

impl AsRef<[u8]> for Priv {
    /// The bytes of the key.
    fn as_ref(&self) -> (bytes: &[u8])
        ensures
            bytes@ == self@,
    {
        &self.0
    }
}

impl Clone for Priv {
    fn clone(&self) -> (copy: Self)
        ensures
            copy == *self,
    {
        Priv(self.0)
    }
}

impl View for Pub {
    type V = Seq<u8>;

    /// The bytes of the public key, in order.
    closed spec fn view(&self) -> Seq<u8> {
        self.0@
    }
}

impl Pub {
    /// The public key of an extended public key: its leading
    /// `PUBLIC_KEY_LENGTH` bytes. No byte of the chain code is kept, so the
    /// extended key cannot be had back from the result.
    pub fn from_xpub(xpub: &ExtendedPublicKey) -> (key: Self)
        ensures
            key@ == xpub.public_key(),
    {
        let mut buf = [0u8; PUBLIC_KEY_LENGTH];
        get_without_chaincode(&xpub.0, &mut buf);
        Pub(buf)
    }

    /// The public key with the given bytes.
    pub fn from_bytes(bytes: [u8; PUBLIC_KEY_LENGTH]) -> (key: Self)
        ensures
            key@ == bytes@,
    {
        Pub(bytes)
    }
}

impl AsRef<[u8]> for Pub {
    /// The bytes of the key.
    fn as_ref(&self) -> (bytes: &[u8])
        ensures
            bytes@ == self@,
    {
        &self.0
    }
}

impl Clone for Pub {
    fn clone(&self) -> (copy: Self)
        ensures
            copy == *self,
    {
        Pub(self.0)
    }
}

impl PartialEq for Pub {
    /// Two public keys are equal when they have the same bytes.
    fn eq(&self, other: &Self) -> (equal: bool) {
        same_bytes(&self.0, &other.0)
    }
}

impl Eq for Pub {}

impl PartialEqSpecImpl for Pub {
    open spec fn obeys_eq_spec() -> bool {
        true
    }

    open spec fn eq_spec(&self, other: &Self) -> bool {
        self@ == other@
    }
}

impl View for Sig {
    type V = Seq<u8>;

    /// The bytes of the signature, in order.
    closed spec fn view(&self) -> Seq<u8> {
        self.0@
    }
}

impl Sig {
    /// The signature with the given bytes.
    pub fn from_bytes(bytes: [u8; SIGNATURE_LENGTH]) -> (signature: Self)
        ensures
            signature@ == bytes@,
    {
        Sig(bytes)
    }

    /// Every signature has `SIGNATURE_LENGTH` bytes.
    pub proof fn length(self)
        ensures
            self@.len() == SIGNATURE_LENGTH,
    {
    }
}

impl AsRef<[u8]> for Sig {
    /// The bytes of the signature.
    fn as_ref(&self) -> (bytes: &[u8])
        ensures
            bytes@ == self@,
    {
        &self.0
    }
}

impl Clone for Sig {
    fn clone(&self) -> (copy: Self)
        ensures
            copy == *self,
    {
        Sig(self.0)
    }
}

impl View for ExtendedPublicKey {
    type V = Seq<u8>;

    /// The bytes of the extended public key, in order.
    closed spec fn view(&self) -> Seq<u8> {
        self.0@
    }
}

impl ExtendedPublicKey {
    /// The extended public key with the given bytes.
    pub fn from_bytes(bytes: [u8; EXTENDED_PUBLIC_KEY_LENGTH]) -> (key: Self)
        ensures
            key@ == bytes@,
    {
        ExtendedPublicKey(bytes)
    }

    /// The bytes of the public key: the leading `PUBLIC_KEY_LENGTH` bytes.
    pub open spec fn public_key(self) -> Seq<u8> {
        self@.subrange(0, PUBLIC_KEY_LENGTH as int)
    }

    /// The bytes of the chain code: those that follow the public key.
    pub open spec fn chain_code(self) -> Seq<u8> {
        self@.subrange(PUBLIC_KEY_LENGTH as int, EXTENDED_PUBLIC_KEY_LENGTH as int)
    }

    /// Every extended public key has `EXTENDED_PUBLIC_KEY_LENGTH` bytes: a
    /// public key of `PUBLIC_KEY_LENGTH` bytes, and its chain code after it.
    pub proof fn length(self)
        ensures
            self@.len() == EXTENDED_PUBLIC_KEY_LENGTH,
            self.public_key().len() == PUBLIC_KEY_LENGTH,
            self@ == self.public_key() + self.chain_code(),
    {
        assert(self@ =~= self.public_key() + self.chain_code());
    }

    /// An extended public key that was put together of the bytes `public` of
    /// a public key and of a chain code has `public` for its public key,
    /// whatever the chain code is.
    pub proof fn public_key_of_parts(self, public: Seq<u8>, chain_code: Seq<u8>)
        requires
            public.len() == PUBLIC_KEY_LENGTH,
            self@ == public + chain_code,
        ensures
            self.public_key() == public,
            self.chain_code() == chain_code,
    {
        assert(self.public_key() =~= public);
        assert(self.chain_code() =~= chain_code);
    }
}

impl AsRef<[u8]> for ExtendedPublicKey {
    /// The bytes of the key: the public key, then the chain code.
    fn as_ref(&self) -> (bytes: &[u8])
        ensures
            bytes@ == self@,
    {
        &self.0
    }
}

/// Calls `ed25519_bip32::XPub::get_without_chaincode` on the extended public
/// key that `ed25519_bip32::XPub::from_bytes` makes of `extended`. The
/// contract claims what the two do together: `from_bytes` keeps the bytes as
/// they come, and `get_without_chaincode` overwrites `out` with the leading
/// 32 of them, those of the public key, and leaves the chain code behind.
#[verifier::external_body]
fn get_without_chaincode(
    extended: &[u8; EXTENDED_PUBLIC_KEY_LENGTH],
    out: &mut [u8; PUBLIC_KEY_LENGTH],
)
    ensures
        final(out)@ == extended@.subrange(0, PUBLIC_KEY_LENGTH as int),
{
    XPub::from_bytes(*extended).get_without_chaincode(out)
}

/// The key pair and the public key that `cryptoxide::ed25519::keypair` gives
/// for the secret key `seed`, in that order.
pub uninterp spec fn ed25519_keypair(seed: Seq<u8>) -> (Seq<u8>, Seq<u8>);

/// Calls `cryptoxide::ed25519::keypair`, which hashes the secret key, clamps
/// the hash to a scalar and multiplies the base point of the curve by it.
/// Nothing of that is proved here. The contract claims only that the result
/// is a function of the bytes of `seed`, and gives it its name.
#[verifier::external_body]
fn keypair(seed: &[u8; SEED_LENGTH]) -> (pair: ([u8; KEYPAIR_LENGTH], [u8; PUBLIC_KEY_LENGTH]))
    ensures
        pair.0@ == ed25519_keypair(seed@).0,
        pair.1@ == ed25519_keypair(seed@).1,
{
    cryptoxide::ed25519::keypair(seed)
}

impl AsymmetricPublicKey for Ed25519 {
    type Public = Pub;

    const PUBLIC_BECH32_HRP: &'static str = "ed25519_pk";

    const PUBLIC_KEY_SIZE: usize = PUBLIC_KEY_LENGTH;

    proof fn public_key_length(key: Pub)
        ensures
            key@.len() == PUBLIC_KEY_LENGTH,
    {
    }

    proof fn public_key_by_bytes(a: Pub, b: Pub) {
        assert(a.0 =~= b.0);
    }

    fn public_from_binary(data: &[u8]) -> (result: Result<Pub, PublicKeyError>)
        ensures
            decoded(data@, PUBLIC_KEY_LENGTH as nat, PublicKeyError::SizeInvalid, result),
    {
        if data.len() != PUBLIC_KEY_LENGTH {
            return Err(PublicKeyError::SizeInvalid);
        }
        Ok(Pub(array_from_slice(data)))
    }
}

impl AsymmetricKey for Ed25519 {
    type PubAlg = Ed25519;

    type Secret = Priv;

    type Entropy = [u8; SEED_LENGTH];

    const SECRET_BECH32_HRP: &'static str = "ed25519_sk";

    open spec fn seed_length() -> nat {
        SEED_LENGTH as nat
    }

    open spec fn public_of(secret: Seq<u8>) -> Seq<u8> {
        ed25519_keypair(secret).1
    }

    proof fn secret_key_length(key: Priv)
        ensures
            key@.len() == SEED_LENGTH,
    {
    }

    proof fn secret_key_by_bytes(a: Priv, b: Priv) {
        assert(a.0 =~= b.0);
    }

    proof fn entropy_length(entropy: [u8; SEED_LENGTH]) {
    }

    fn generate(entropy: [u8; SEED_LENGTH]) -> (secret: Priv) {
        Priv(entropy)
    }

    fn compute_public(secret: &Priv) -> (public: Pub)
        ensures
            public@ == ed25519_keypair(secret@).1,
    {
        let (_, pk) = keypair(&secret.0);
        Pub::from_bytes(pk)
    }

    fn secret_from_binary(data: &[u8]) -> (result: Result<Priv, SecretKeyError>)
        ensures
            decoded(data@, SEED_LENGTH as nat, SecretKeyError::SizeInvalid, result),
    {
        if data.len() != SEED_LENGTH {
            return Err(SecretKeyError::SizeInvalid);
        }
        Ok(Priv(array_from_slice(data)))
    }
}

/// What the constants of the algorithm are: the lengths of its keys, and the
/// human readable parts `ed25519_pk` and `ed25519_sk`, character by
/// character.
pub proof fn constants()
    ensures
        Ed25519::PUBLIC_KEY_SIZE == PUBLIC_KEY_LENGTH,
        Ed25519::seed_length() == SEED_LENGTH,
        Ed25519::PUBLIC_BECH32_HRP@ == seq!['e', 'd', '2', '5', '5', '1', '9', '_', 'p', 'k'],
        Ed25519::SECRET_BECH32_HRP@ == seq!['e', 'd', '2', '5', '5', '1', '9', '_', 's', 'k'],
{
    reveal_strlit("ed25519_pk");
    reveal_strlit("ed25519_sk");
    assert(Ed25519::PUBLIC_BECH32_HRP@ =~= seq!['e', 'd', '2', '5', '5', '1', '9', '_', 'p', 'k']);
    assert(Ed25519::SECRET_BECH32_HRP@ =~= seq!['e', 'd', '2', '5', '5', '1', '9', '_', 's', 'k']);
}

} // verus!
