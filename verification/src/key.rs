//! The interface shared by every key algorithm, and its errors.

use std::hash::Hash;
use vstd::prelude::*;

verus! {

/// Why a byte string was not accepted as a public key.
#[derive(Debug, Clone, Copy, PartialEq, Eq, Structural)]
pub enum PublicKeyError {
    /// The input does not have the algorithm's public key length.
    SizeInvalid,
}

/// Why a byte string was not accepted as a secret key.
#[derive(Debug, Clone, Copy, PartialEq, Eq, Structural)]
pub enum SecretKeyError {
    /// The input does not have the algorithm's seed length.
    SizeInvalid,
}

/// What decoding `data` as a key of `len` bytes must give: a key that holds
/// exactly the bytes of `data` when there are `len` of them, and the error
/// `size_invalid` for any other length.
pub open spec fn decoded<K: View<V = Seq<u8>>, E>(
    data: Seq<u8>,
    len: nat,
    size_invalid: E,
    result: Result<K, E>,
) -> bool {
    if data.len() == len {
        result matches Ok(key) && key@ == data
    } else {
        result matches Err(e) && e == size_invalid
    }
}

/// An algorithm with public keys of a fixed length.
pub trait AsymmetricPublicKey {
    /// The public keys of the algorithm, seen as their bytes. They can be
    /// compared and hashed, so that they can be the keys of a map.
    type Public: View<V = Seq<u8>> + Clone + Eq + Hash;

    /// The bech32 human readable part of a public key.
    const PUBLIC_BECH32_HRP: &'static str;

    /// The length of a public key in bytes.
    const PUBLIC_KEY_SIZE: usize;

    /// Every public key has `PUBLIC_KEY_SIZE` bytes.
    proof fn public_key_length(key: Self::Public)
        ensures
            key@.len() == Self::PUBLIC_KEY_SIZE,
    ;

    /// A public key is nothing but its bytes.
    proof fn public_key_by_bytes(a: Self::Public, b: Self::Public)
        requires
            a@ == b@,
        ensures
            a == b,
    ;

    /// Decodes a public key. An input of `PUBLIC_KEY_SIZE` bytes is taken as
    /// it stands, with no check that it is a point of the curve; an input of
    /// any other length is refused.
    fn public_from_binary(data: &[u8]) -> (result: Result<Self::Public, PublicKeyError>)
        ensures
            decoded(data@, Self::PUBLIC_KEY_SIZE as nat, PublicKeyError::SizeInvalid, result),
    ;
}

/// An algorithm with secret keys of a fixed length, each of which has one
/// public key.
pub trait AsymmetricKey {
    /// The algorithm of the public keys.
    type PubAlg: AsymmetricPublicKey;

    /// The secret keys of the algorithm, seen as their bytes. No
    /// comparison is asked of them: secret keys are not to be compared.
    type Secret: View<V = Seq<u8>> + Clone;

    /// The random bytes that one secret key is made of: as many as the key
    /// has, no more and no fewer.
    type Entropy: View<V = Seq<u8>>;

    /// The bech32 human readable part of a secret key.
    const SECRET_BECH32_HRP: &'static str;

    /// The length of a secret key in bytes.
    spec fn seed_length() -> nat;

    /// The bytes of the public key that belongs to the secret key `secret`.
    spec fn public_of(secret: Seq<u8>) -> Seq<u8>;

    /// Every secret key has `seed_length()` bytes.
    proof fn secret_key_length(key: Self::Secret)
        ensures
            key@.len() == Self::seed_length(),
    ;

    /// A secret key is nothing but its bytes.
    proof fn secret_key_by_bytes(a: Self::Secret, b: Self::Secret)
        requires
            a@ == b@,
        ensures
            a == b,
    ;

    /// The entropy for one secret key has `seed_length()` bytes.
    proof fn entropy_length(entropy: Self::Entropy)
        ensures
            entropy@.len() == Self::seed_length(),
    ;

    /// Makes a secret key of `entropy`, which the caller has drawn from a
    /// cryptographically secure random source: every byte is used, in
    /// order, and nothing else.
    fn generate(entropy: Self::Entropy) -> (secret: Self::Secret)
        ensures
            secret@ == entropy@,
    ;

    /// Computes the public key of `secret`. It depends on the bytes of
    /// `secret` alone.
    fn compute_public(secret: &Self::Secret) -> (public: <Self::PubAlg as AsymmetricPublicKey>::Public)
        ensures
            public@ == Self::public_of(secret@),
    ;

    /// Decodes a secret key. An input of `seed_length()` bytes is taken as it
    /// stands, whatever its bits; an input of any other length is refused.
    fn secret_from_binary(data: &[u8]) -> (result: Result<Self::Secret, SecretKeyError>)
        ensures
            decoded(data@, Self::seed_length(), SecretKeyError::SizeInvalid, result),
    ;
}

/// Decoding the bytes of a public key gives that key back.
pub proof fn public_round_trip<A: AsymmetricPublicKey>(
    key: A::Public,
    result: Result<A::Public, PublicKeyError>,
)
    requires
        decoded(key@, A::PUBLIC_KEY_SIZE as nat, PublicKeyError::SizeInvalid, result),
    ensures
        result == Ok::<A::Public, PublicKeyError>(key),
{
    A::public_key_length(key);
    A::public_key_by_bytes(result->Ok_0, key);
}

/// Decoding the bytes of a secret key gives that key back.
pub proof fn secret_round_trip<A: AsymmetricKey>(
    key: A::Secret,
    result: Result<A::Secret, SecretKeyError>,
)
    requires
        decoded(key@, A::seed_length(), SecretKeyError::SizeInvalid, result),
    ensures
        result == Ok::<A::Secret, SecretKeyError>(key),
{
    A::secret_key_length(key);
    A::secret_key_by_bytes(result->Ok_0, key);
}

/// The public key depends on nothing but the bytes of the secret key: two
/// computations from the same secret key give the same public key.
pub proof fn compute_public_deterministic<A: AsymmetricKey>(
    secret: A::Secret,
    again: A::Secret,
    public: <A::PubAlg as AsymmetricPublicKey>::Public,
    public_again: <A::PubAlg as AsymmetricPublicKey>::Public,
)
    requires
        secret@ == again@,
        public@ == A::public_of(secret@),
        public_again@ == A::public_of(again@),
    ensures
        public == public_again,
{
    A::PubAlg::public_key_by_bytes(public, public_again);
}

/// Copies a slice of exactly `N` bytes into an array.
pub(crate) fn array_from_slice<const N: usize>(data: &[u8]) -> (buf: [u8; N])
    requires
        data@.len() == N,
    ensures
        buf@ == data@,
{
    let mut buf = [0u8; N];
    let mut i: usize = 0;
    while i < N
        invariant
            i <= N,
            data@.len() == N,
            forall|j: int| 0 <= j < i ==> buf@[j] == data@[j],
        decreases N - i,
    {
        buf[i] = data[i];
        i += 1;
    }
    buf
}

/// Tells whether two arrays hold the same bytes. Every byte is looked at,
/// and no step depends on what the bytes are.
pub(crate) fn same_bytes<const N: usize>(a: &[u8; N], b: &[u8; N]) -> (same: bool)
    ensures
        same == (a@ == b@),
{
    let mut differences: u8 = 0;
    let mut i: usize = 0;
    while i < N
        invariant
            i <= N,
            differences == 0 <==> forall|j: int| 0 <= j < i ==> a@[j] == b@[j],
        decreases N - i,
    {
        let x: u8 = a[i];
        let y: u8 = b[i];
        assert((differences | (x ^ y)) == 0 <==> differences == 0 && x == y) by (bit_vector);
        differences = differences | (x ^ y);
        i += 1;
    }
    proof {
        if differences == 0 {
            assert(a@ =~= b@);
        }
    }
    differences == 0
}

} // verus!
