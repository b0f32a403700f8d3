//! A uniform interface over asymmetric key algorithms.
//!
//! Every algorithm has secret and public keys of fixed lengths. A key is
//! made in one of a few ways, each of which fixes its length: a secret key of
//! fresh entropy or of bytes that are decoded, a public key of its secret
//! key, of bytes that are decoded, or of an extended public key. Decoding
//! takes an input of the right length as it stands and refuses any other; it
//! never cuts an input short and never fills one up.
//!
//! [`key`] holds the interface and the laws that hold of every algorithm,
//! [`algorithms`] the algorithms themselves.

pub mod algorithms;
pub mod key;
